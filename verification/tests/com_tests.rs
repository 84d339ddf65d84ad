use lexi::com::{
    can_unload_now, class_object_request, dll_entry_action, reg_sz_bytes, registration_entries,
    unregistration_keys, DllAction, Registration, RegistrationStep, RegistryRoot,
    HR_FILE_NOT_FOUND, HR_INVALID_FUNCTION, S_FALSE, S_OK,
};
use lexi::guid::{clsid_lexi_ime, clsid_to_string, guid_lexi_profile, Guid};

const CLSID: &str = "{12340001-0000-0000-C000-000000000046}";
const PROFILE: &str = "{12340001-0000-0000-C000-000000000047}";

#[test]
fn guid_from_u128_splits_fields() {
    let g = Guid::from_u128(0x0123_4567_89AB_CDEF_0011_2233_4455_6677);
    assert_eq!(g.data1, 0x0123_4567);
    assert_eq!(g.data2, 0x89AB);
    assert_eq!(g.data3, 0xCDEF);
    assert_eq!(g.data4, [0x00, 0x11, 0x22, 0x33, 0x44, 0x55, 0x66, 0x77]);
}

#[test]
fn clsid_text_is_braced_upper_hex() {
    assert_eq!(clsid_to_string(&clsid_lexi_ime()), CLSID);
    assert_eq!(clsid_to_string(&guid_lexi_profile()), PROFILE);
    let g = Guid { data1: 0xabc, data2: 0xd, data3: 0xffff, data4: [1, 0xfe, 0, 0x10, 0xa, 0xb, 0xc, 0xd] };
    assert_eq!(clsid_to_string(&g), "{00000ABC-000D-FFFF-01FE-00100A0B0C0D}");
}

#[test]
fn same_as_compares_all_fields() {
    let a = clsid_lexi_ime();
    let b = guid_lexi_profile();
    assert!(a.same_as(&clsid_lexi_ime()));
    assert!(!a.same_as(&b));
    let mut c = clsid_lexi_ime();
    c.data4[7] = 0x47;
    assert!(!a.same_as(&c));
}

#[test]
fn registration_entries_in_order() {
    let e = registration_entries("C:\\lexi\\lexi_tsf.dll");
    assert_eq!(e.len(), 6);
    let com = format!("SOFTWARE\\Classes\\CLSID\\{}", CLSID);
    let inproc = format!("{}\\InprocServer32", com);
    let tip = format!("SOFTWARE\\Microsoft\\CTF\\TIP\\{}", CLSID);
    let lang = format!("{}\\LanguageProfile\\0x00000804\\{}", tip, PROFILE);
    let expected = [
        (com.as_str(), "", "Lexi Input Method"),
        (inproc.as_str(), "", "C:\\lexi\\lexi_tsf.dll"),
        (inproc.as_str(), "ThreadingModel", "Apartment"),
        (tip.as_str(), "", "Lexi Input Method"),
        (tip.as_str(), "Display Description", "Lexi Input Method"),
        (lang.as_str(), "", "Lexi Pinyin"),
    ];
    for (v, (k, n, d)) in e.iter().zip(expected.iter()) {
        assert_eq!(v.root, RegistryRoot::LocalMachine);
        assert_eq!(v.key, *k);
        assert_eq!(v.name, *n);
        assert_eq!(v.data, *d);
    }
}

#[test]
fn unregistration_deletes_tip_then_class() {
    let k = unregistration_keys();
    assert_eq!(k.len(), 2);
    assert_eq!(k[0].0, RegistryRoot::LocalMachine);
    assert_eq!(k[0].1, format!("SOFTWARE\\Microsoft\\CTF\\TIP\\{}", CLSID));
    assert_eq!(k[1].0, RegistryRoot::LocalMachine);
    assert_eq!(k[1].1, format!("SOFTWARE\\Classes\\CLSID\\{}", CLSID));
}

#[test]
fn unregistration_covers_every_registered_value() {
    let plan = registration_entries("C:\\lexi\\tsf.dll");
    let keys = unregistration_keys();
    for v in &plan {
        assert!(keys.iter().any(|(root, key)| *root == v.root && v.key.starts_with(key.as_str())));
    }
}

#[test]
fn registration_succeeds_after_all_writes() {
    let (mut reg, step) = Registration::start(Some("x.dll"));
    let mut writes = 0;
    let mut step = step;
    loop {
        match step {
            RegistrationStep::Write(v) => {
                if writes == 1 {
                    assert_eq!(v.data, "x.dll");
                }
                writes += 1;
                step = reg.after_write(true);
            }
            RegistrationStep::Done(hr) => {
                assert_eq!(hr, S_OK);
                break;
            }
        }
    }
    assert_eq!(writes, 6);
}

#[test]
fn registration_stops_at_first_failed_write() {
    let (mut reg, step) = Registration::start(Some("x.dll"));
    assert!(matches!(step, RegistrationStep::Write(_)));
    assert!(matches!(reg.after_write(true), RegistrationStep::Write(_)));
    match reg.after_write(false) {
        RegistrationStep::Done(hr) => assert_eq!(hr, HR_INVALID_FUNCTION),
        _ => panic!("expected the registration to end"),
    }
}

#[test]
fn registration_without_dll_path_fails() {
    let (_reg, step) = Registration::start(None);
    match step {
        RegistrationStep::Done(hr) => assert_eq!(hr, HR_INVALID_FUNCTION),
        _ => panic!("expected failure"),
    }
    assert_eq!(HR_INVALID_FUNCTION as u32, 0x8007_0001);
    assert_eq!(HR_FILE_NOT_FOUND as u32, 0x8007_0002);
}

#[test]
fn reg_sz_bytes_are_utf16le_with_terminator() {
    assert_eq!(reg_sz_bytes("Ab"), vec![0x41, 0, 0x62, 0, 0, 0]);
    assert_eq!(reg_sz_bytes(""), vec![0, 0]);
    assert_eq!(reg_sz_bytes("中"), vec![0x2D, 0x4E, 0, 0]);
    assert_eq!(reg_sz_bytes("😀"), vec![0x3D, 0xD8, 0x00, 0xDE, 0, 0]);
    let expected: Vec<u8> = "Apartment".encode_utf16().chain([0]).flat_map(|u| u.to_le_bytes()).collect();
    assert_eq!(reg_sz_bytes("Apartment"), expected);
    assert_eq!(reg_sz_bytes("Apartment").len(), 20);
}

#[test]
fn dll_entry_actions() {
    assert_eq!(dll_entry_action(1), DllAction::RememberInstance);
    assert_eq!(dll_entry_action(0), DllAction::Disconnect);
    assert_eq!(dll_entry_action(2), DllAction::Ignore);
}

#[test]
fn unload_only_when_inactive() {
    assert_eq!(can_unload_now(false), S_OK);
    assert_eq!(can_unload_now(true), S_FALSE);
}

#[test]
fn class_object_checks() {
    assert_eq!(class_object_request(None, true, true), Err(HR_INVALID_FUNCTION));
    assert_eq!(class_object_request(Some(clsid_lexi_ime()), false, true), Err(HR_INVALID_FUNCTION));
    assert_eq!(class_object_request(Some(clsid_lexi_ime()), true, false), Err(HR_INVALID_FUNCTION));
    assert_eq!(class_object_request(Some(guid_lexi_profile()), true, true), Err(HR_FILE_NOT_FOUND));
    assert_eq!(class_object_request(Some(clsid_lexi_ime()), true, true), Ok(()));
}

#[test]
fn registry_spelling_shape() {
    for x in [0u128, u128::MAX, 0x12340001_0000_0000_C000_000000000046, 0x0123_4567_89AB_CDEF_FEDC_BA98_7654_3210] {
        let s = clsid_to_string(&Guid::from_u128(x));
        assert_eq!(s.len(), 38);
        let chars: Vec<char> = s.chars().collect();
        assert_eq!((chars[0], chars[37]), ('{', '}'));
        for k in [9, 14, 19, 24] {
            assert_eq!(chars[k], '-');
        }
        let digits: String = chars.iter().filter(|c| **c != '{' && **c != '}' && **c != '-').collect();
        assert_eq!(digits, format!("{:032X}", x));
    }
}

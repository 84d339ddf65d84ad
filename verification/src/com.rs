//! Decisions of the text-service DLL: its exported entry points and its
//! registration as a Windows text input processor.
use vstd::prelude::*;
use vstd::string::StrSliceExecFns;
use crate::guid::{Guid, clsid_lexi_ime, guid_lexi_profile, clsid_to_string, guid_text, guid_from_u128};
use crate::text::push_str;

verus! {

/// `S_OK`.
pub const S_OK: i32 = 0;

/// `S_FALSE`.
pub const S_FALSE: i32 = 1;

/// The failure code the DLL reports for bad arguments and failed
/// registration (`0x80070001`).
pub const HR_INVALID_FUNCTION: i32 = -0x7ff8ffff;

/// The failure code the DLL reports for a class it does not serve
/// (`0x80070002`).
pub const HR_FILE_NOT_FOUND: i32 = -0x7ff8fffe;

/// `DLL_PROCESS_DETACH`.
pub const DLL_PROCESS_DETACH: u32 = 0;

/// `DLL_PROCESS_ATTACH`.
pub const DLL_PROCESS_ATTACH: u32 = 1;

/// What the DLL entry point does for a notification.
#[derive(PartialEq, Eq, Structural, Clone, Copy, Debug)]
pub enum DllAction {
    /// Remember the module handle (process attach).
    RememberInstance,
    /// Close the pipe to the input method (process detach).
    Disconnect,
    /// Nothing to do.
    Ignore,
}

/// The action for a `DllMain` notification.
pub fn dll_entry_action(reason: u32) -> (a: DllAction)
    ensures
        a == (if reason == DLL_PROCESS_ATTACH {
            DllAction::RememberInstance
        } else if reason == DLL_PROCESS_DETACH {
            DllAction::Disconnect
        } else {
            DllAction::Ignore
        }),
{
    if reason == DLL_PROCESS_ATTACH {
        DllAction::RememberInstance
    } else if reason == DLL_PROCESS_DETACH {
        DllAction::Disconnect
    } else {
        DllAction::Ignore
    }
}

/// `DllCanUnloadNow`: the DLL stays loaded while a text service it created
/// is alive.
pub fn can_unload_now(active: bool) -> (hr: i32)
    ensures
        hr == (if active { S_FALSE } else { S_OK }),
{
    if active {
        S_FALSE
    } else {
        S_OK
    }
}

/// The check `DllGetClassObject` makes before it creates a class factory:
/// `rclsid` is the requested class (`None` for a null pointer); the two flags
/// say whether the interface and out pointers are non-null. `Ok` means a
/// factory is to be created and queried.
pub fn class_object_request(rclsid: Option<Guid>, riid_present: bool, ppv_present: bool) -> (r:
    Result<(), i32>)
    ensures
        rclsid is None || !riid_present || !ppv_present ==> r == Err::<(), i32>(HR_INVALID_FUNCTION),
        rclsid is Some && riid_present && ppv_present ==> r == (if rclsid->0.parts()
            == guid_from_u128(0x12340001_0000_0000_C000_000000000046u128) {
            Ok::<(), i32>(())
        } else {
            Err(HR_FILE_NOT_FOUND)
        }),
{
    match rclsid {
        None => Err(HR_INVALID_FUNCTION),
        Some(g) => {
            if !riid_present || !ppv_present {
                Err(HR_INVALID_FUNCTION)
            } else if g.same_as(&clsid_lexi_ime()) {
                Ok(())
            } else {
                Err(HR_FILE_NOT_FOUND)
            }
        },
    }
}

/// A registry hive.
#[derive(PartialEq, Eq, Structural, Clone, Copy, Debug)]
pub enum RegistryRoot {
    LocalMachine,
    ClassesRoot,
}

/// One string value to write: hive, key path, value name (empty for the
/// default value) and data.
pub struct RegistryValue {
    pub root: RegistryRoot,
    pub key: String,
    pub name: String,
    pub data: String,
}

impl View for RegistryValue {
    type V = (RegistryRoot, Seq<char>, Seq<char>, Seq<char>);

    open spec fn view(&self) -> Self::V {
        (self.root, self.key@, self.name@, self.data@)
    }
}

impl RegistryValue {
    /// A copy of the value.
    pub fn duplicate(&self) -> (r: RegistryValue)
        ensures
            r@ == self@,
    {
        RegistryValue {
            root: self.root,
            key: self.key.clone(),
            name: self.name.clone(),
            data: self.data.clone(),
        }
    }
}

/// The registry spelling of the text service's class identifier.
pub open spec fn clsid_text() -> Seq<char> {
    guid_text(guid_from_u128(0x12340001_0000_0000_C000_000000000046u128))
}

/// The registry spelling of the language profile's identifier.
pub open spec fn profile_text() -> Seq<char> {
    guid_text(guid_from_u128(0x12340001_0000_0000_C000_000000000047u128))
}

/// The COM class key of the text service.
pub open spec fn com_key() -> Seq<char> {
    "SOFTWARE\\Classes\\CLSID\\"@ + clsid_text()
}

/// The in-process server key of the text service.
pub open spec fn inproc_key() -> Seq<char> {
    com_key() + "\\InprocServer32"@
}

/// The text input processor key of the text service.
pub open spec fn tip_key() -> Seq<char> {
    "SOFTWARE\\Microsoft\\CTF\\TIP\\"@ + clsid_text()
}

/// The key of the simplified-Chinese (0x0804) language profile.
pub open spec fn language_profile_key() -> Seq<char> {
    tip_key() + "\\LanguageProfile\\0x00000804\\"@ + profile_text()
}

/// The values `DllRegisterServer` writes, in order, for the DLL at `dll_path`.
pub open spec fn registration_plan(dll_path: Seq<char>) -> Seq<(RegistryRoot, Seq<char>, Seq<char>, Seq<char>)> {
    seq![
        (RegistryRoot::LocalMachine, com_key(), ""@, "Lexi Input Method"@),
        (RegistryRoot::LocalMachine, inproc_key(), ""@, dll_path),
        (RegistryRoot::LocalMachine, inproc_key(), "ThreadingModel"@, "Apartment"@),
        (RegistryRoot::LocalMachine, tip_key(), ""@, "Lexi Input Method"@),
        (RegistryRoot::LocalMachine, tip_key(), "Display Description"@, "Lexi Input Method"@),
        (RegistryRoot::LocalMachine, language_profile_key(), ""@, "Lexi Pinyin"@),
    ]
}

/// The views of a list of registry values.
pub open spec fn values_view(v: Seq<RegistryValue>) -> Seq<(RegistryRoot, Seq<char>, Seq<char>, Seq<char>)> {
    v.map_values(|e: RegistryValue| e@)
}

fn concat2(a: &str, b: &str) -> (r: String)
    ensures
        r@ == a@ + b@,
{
    let mut s = String::new();
    push_str(&mut s, a);
    push_str(&mut s, b);
    assert(s@ =~= a@ + b@);
    s
}

fn value(root: RegistryRoot, key: &str, name: &str, data: &str) -> (r: RegistryValue)
    ensures
        r@ == (root, key@, name@, data@),
{
    RegistryValue { root, key: key.to_owned(), name: name.to_owned(), data: data.to_owned() }
}

/// The values to write when the text service is registered from `dll_path`.
pub fn registration_entries(dll_path: &str) -> (r: Vec<RegistryValue>)
    ensures
        values_view(r@) == registration_plan(dll_path@),
{
    let clsid = clsid_to_string(&clsid_lexi_ime());
    let profile = clsid_to_string(&guid_lexi_profile());
    let com = concat2("SOFTWARE\\Classes\\CLSID\\", clsid.as_str());
    let inproc = concat2(com.as_str(), "\\InprocServer32");
    let tip = concat2("SOFTWARE\\Microsoft\\CTF\\TIP\\", clsid.as_str());
    let lang_prefix = concat2(tip.as_str(), "\\LanguageProfile\\0x00000804\\");
    let lang = concat2(lang_prefix.as_str(), profile.as_str());
    let mut r: Vec<RegistryValue> = Vec::new();
    r.push(value(RegistryRoot::LocalMachine, com.as_str(), "", "Lexi Input Method"));
    r.push(value(RegistryRoot::LocalMachine, inproc.as_str(), "", dll_path));
    r.push(value(RegistryRoot::LocalMachine, inproc.as_str(), "ThreadingModel", "Apartment"));
    r.push(value(RegistryRoot::LocalMachine, tip.as_str(), "", "Lexi Input Method"));
    r.push(
        value(RegistryRoot::LocalMachine, tip.as_str(), "Display Description", "Lexi Input Method"),
    );
    r.push(value(RegistryRoot::LocalMachine, lang.as_str(), "", "Lexi Pinyin"));
    proof {
        assert(lang@ =~= language_profile_key());
        assert(values_view(r@) =~= registration_plan(dll_path@));
    }
    r
}

/// The key trees `DllUnregisterServer` deletes, with their hives, in order:
/// the text input processor key and the COM class key, both under
/// `HKEY_LOCAL_MACHINE` where registration wrote them.
pub open spec fn unregistration_plan() -> Seq<(RegistryRoot, Seq<char>)> {
    seq![(RegistryRoot::LocalMachine, tip_key()), (RegistryRoot::LocalMachine, com_key())]
}

/// The key trees to delete when the text service is unregistered; deletion
/// failures are ignored and the result is always `S_OK`.
pub fn unregistration_keys() -> (r: Vec<(RegistryRoot, String)>)
    ensures
        r@.map_values(|e: (RegistryRoot, String)| (e.0, e.1@)) == unregistration_plan(),
{
    let clsid = clsid_to_string(&clsid_lexi_ime());
    let tip = concat2("SOFTWARE\\Microsoft\\CTF\\TIP\\", clsid.as_str());
    let com = concat2("SOFTWARE\\Classes\\CLSID\\", clsid.as_str());
    let mut r: Vec<(RegistryRoot, String)> = Vec::new();
    r.push((RegistryRoot::LocalMachine, tip));
    r.push((RegistryRoot::LocalMachine, com));
    assert(r@.map_values(|e: (RegistryRoot, String)| (e.0, e.1@)) =~= unregistration_plan());
    r
}

/// Whether deleting the key trees of `plan` removes the value stored under
/// `key` in the hive `root`.
pub open spec fn deletes(plan: Seq<(RegistryRoot, Seq<char>)>, root: RegistryRoot, key: Seq<char>) -> bool {
    exists|j: int| 0 <= j < plan.len() && plan[j].0 == root && #[trigger] plan[j].1.is_prefix_of(key)
}

/// Unregistering undoes registration: every value that registration writes,
/// whatever the DLL path, lies in a key tree that unregistration deletes.
pub proof fn lemma_unregistration_removes_registration(dll_path: Seq<char>, i: int)
    requires
        0 <= i < registration_plan(dll_path).len(),
    ensures
        deletes(unregistration_plan(), registration_plan(dll_path)[i].0, registration_plan(dll_path)[i].1),
{
    let plan = unregistration_plan();
    let key = registration_plan(dll_path)[i].1;
    if i < 3 {
        if i > 0 {
            assert(key =~= com_key() + "\\InprocServer32"@);
        }
        assert(key.subrange(0, com_key().len() as int) =~= com_key());
        assert(plan[1].1.is_prefix_of(key));
    } else {
        if i == 5 {
            assert(key =~= tip_key() + ("\\LanguageProfile\\0x00000804\\"@ + profile_text()));
        }
        assert(key.subrange(0, tip_key().len() as int) =~= tip_key());
        assert(plan[0].1.is_prefix_of(key));
    }
}

/// The UTF-16 code units of one character.
pub open spec fn utf16_char(c: char) -> Seq<u16> {
    let v = c as int;
    if v < 0x10000 {
        seq![v as u16]
    } else {
        seq![(0xD800 + (v - 0x10000) / 0x400) as u16, (0xDC00 + (v - 0x10000) % 0x400) as u16]
    }
}

/// The UTF-16 encoding of a character sequence.
pub open spec fn utf16(s: Seq<char>) -> Seq<u16>
    decreases s.len(),
{
    if s.len() == 0 {
        seq![]
    } else {
        utf16(s.drop_last()) + utf16_char(s.last())
    }
}

/// The two little-endian bytes of a UTF-16 code unit.
pub open spec fn unit_le(u: u16) -> Seq<u8> {
    seq![(u % 256) as u8, (u / 256) as u8]
}

/// The little-endian bytes of a sequence of UTF-16 code units.
pub open spec fn le_bytes(us: Seq<u16>) -> Seq<u8>
    decreases us.len(),
{
    if us.len() == 0 {
        seq![]
    } else {
        le_bytes(us.drop_last()) + unit_le(us.last())
    }
}

/// The bytes stored as the data of a string value (`REG_SZ`): the UTF-16
/// encoding of the text and a terminating zero unit, each unit as two
/// little-endian bytes.
pub open spec fn reg_sz_bytes_spec(s: Seq<char>) -> Seq<u8> {
    le_bytes(utf16(s) + seq![0u16])
}

proof fn lemma_le_bytes_push(us: Seq<u16>, u: u16)
    ensures
        le_bytes(us.push(u)) == le_bytes(us) + unit_le(u),
{
    assert(us.push(u).drop_last() =~= us);
}

fn push_unit(out: &mut Vec<u8>, u: u16)
    ensures
        final(out)@ == old(out)@ + unit_le(u),
{
    out.push((u % 256) as u8);
    out.push((u / 256) as u8);
    assert(final(out)@ =~= old(out)@ + unit_le(u));
}

/// The data bytes written for a string value (see `reg_sz_bytes_spec`).
pub fn reg_sz_bytes(value: &str) -> (r: Vec<u8>)
    ensures
        r@ == reg_sz_bytes_spec(value@),
{
    let n = value.unicode_len();
    let mut out: Vec<u8> = Vec::new();
    let mut i: usize = 0;
    while i < n
        invariant
            n == value@.len(),
            i <= n,
            out@ == le_bytes(utf16(value@.take(i as int))),
        decreases n - i,
    {
        let c = value.get_char(i);
        let v: u32 = c as u32;
        let ghost before = utf16(value@.take(i as int));
        if v < 0x10000 {
            push_unit(&mut out, v as u16);
            proof {
                assert(utf16_char(c) =~= seq![v as u16]);
                assert(before + utf16_char(c) =~= before.push(v as u16));
                lemma_le_bytes_push(before, v as u16);
            }
        } else {
            let w: u32 = v - 0x10000;
            let hi: u16 = (0xD800 + w / 0x400) as u16;
            let lo: u16 = (0xDC00 + w % 0x400) as u16;
            push_unit(&mut out, hi);
            push_unit(&mut out, lo);
            proof {
                assert(utf16_char(c) =~= seq![hi, lo]);
                assert(before + utf16_char(c) =~= before.push(hi).push(lo));
                lemma_le_bytes_push(before, hi);
                lemma_le_bytes_push(before.push(hi), lo);
            }
        }
        proof {
            let t = value@.take(i + 1);
            assert(t.drop_last() =~= value@.take(i as int));
            assert(t.last() == c);
            assert(utf16(t) == before + utf16_char(c));
            assert(out@ =~= le_bytes(utf16(t)));
        }
        i = i + 1;
    }
    push_unit(&mut out, 0u16);
    proof {
        assert(value@.take(n as int) =~= value@);
        lemma_le_bytes_push(utf16(value@), 0u16);
        assert(utf16(value@) + seq![0u16] =~= utf16(value@).push(0u16));
    }
    out
}

/// What to do next while registering.
pub enum RegistrationStep {
    /// Write this value, then report whether the write succeeded.
    Write(RegistryValue),
    /// Registration is over, with this result.
    Done(i32),
}

impl RegistrationStep {
    /// Whether this step ends the registration with result `hr`.
    pub open spec fn is_done_with(&self, hr: i32) -> bool {
        match self {
            RegistrationStep::Done(h) => *h == hr,
            _ => false,
        }
    }

    /// Whether this step writes a value whose view is `v`.
    pub open spec fn writes(&self, v: (RegistryRoot, Seq<char>, Seq<char>, Seq<char>)) -> bool {
        match self {
            RegistrationStep::Write(e) => e@ == v,
            _ => false,
        }
    }
}

/// A registration in progress: the planned values and how many were written.
pub struct Registration {
    entries: Vec<RegistryValue>,
    written: usize,
    finished: bool,
}

impl Registration {
    /// The planned values.
    pub closed spec fn plan(&self) -> Seq<(RegistryRoot, Seq<char>, Seq<char>, Seq<char>)> {
        values_view(self.entries@)
    }

    /// How many values were written successfully so far.
    pub closed spec fn written(&self) -> nat {
        self.written as nat
    }

    /// Whether the registration has reported its result.
    pub closed spec fn finished(&self) -> bool {
        self.finished
    }

    /// The internal consistency of a registration.
    pub closed spec fn wf(&self) -> bool {
        &&& self.written <= self.entries.len()
        &&& !self.finished ==> self.written < self.entries.len()
    }

    /// `DllRegisterServer`: starts registering the DLL found at `dll_path`
    /// (`None` when its path could not be read, which fails at once).
    pub fn start(dll_path: Option<&str>) -> (r: (Registration, RegistrationStep))
        ensures
            r.0.wf(),
            r.0.written() == 0,
            match dll_path {
                None => r.0.finished() && r.1.is_done_with(HR_INVALID_FUNCTION),
                Some(p) => {
                    &&& r.0.plan() == registration_plan(p@)
                    &&& !r.0.finished()
                    &&& r.1.writes(registration_plan(p@)[0])
                },
            },
    {
        match dll_path {
            None => {
                let reg = Registration { entries: Vec::new(), written: 0, finished: true };
                assert(reg.wf());
                (reg, RegistrationStep::Done(HR_INVALID_FUNCTION))
            },
            Some(p) => {
                let entries = registration_entries(p);
                assert(values_view(entries@).len() == 6);
                let first = entries[0].duplicate();
                let reg = Registration { entries, written: 0, finished: false };
                (reg, RegistrationStep::Write(first))
            },
        }
    }

    /// Reports the outcome of the last write and returns the next step: the
    /// first failed write ends the registration with `HR_INVALID_FUNCTION`;
    /// after the last planned write it ends with `S_OK`.
    pub fn after_write(&mut self, ok: bool) -> (step: RegistrationStep)
        requires
            old(self).wf(),
            !old(self).finished(),
        ensures
            final(self).wf(),
            final(self).plan() == old(self).plan(),
            !ok ==> final(self).finished() && final(self).written() == old(self).written()
                && step.is_done_with(HR_INVALID_FUNCTION),
            ok ==> final(self).written() == old(self).written() + 1,
            ok && old(self).written() + 1 < old(self).plan().len() ==> !final(self).finished()
                && step.writes(old(self).plan()[old(self).written() as int + 1]),
            ok && old(self).written() + 1 >= old(self).plan().len() ==> final(self).finished()
                && step.is_done_with(S_OK),
    {
        if !ok {
            self.finished = true;
            return RegistrationStep::Done(HR_INVALID_FUNCTION);
        }
        self.written = self.written + 1;
        if self.written < self.entries.len() {
            let next = self.entries[self.written].duplicate();
            RegistrationStep::Write(next)
        } else {
            self.finished = true;
            RegistrationStep::Done(S_OK)
        }
    }
}

} // verus!

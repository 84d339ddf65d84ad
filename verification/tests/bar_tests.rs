use lexi::bar::{Argb, BarData, Palette};
use lexi::engine::{CandidateData, ContextData, KeyResult};

fn ctx(commit: &str, last: bool) -> ContextData {
    ContextData {
        preedit: "zhong".to_string(),
        candidates: vec![
            CandidateData { text: "中".to_string(), comment: "zhong".to_string() },
            CandidateData { text: "种".to_string(), comment: String::new() },
        ],
        page_no: 2,
        is_last_page: last,
        highlighted_index: 1,
        commit_text: commit.to_string(),
    }
}

#[test]
fn default_bar_is_hidden_light_steel_blue() {
    let b = BarData::default();
    assert_eq!(b.preedit, "");
    assert!(b.candidates.is_empty());
    assert_eq!((b.active_index, b.page_no, b.total_pages), (0, 0, 0));
    assert!(!b.visible);
    assert_eq!((b.pos_x, b.pos_y), (100, 300));
    assert_eq!(b.theme, "light");
    assert_eq!(b.primary_color, (70, 130, 180));
}

#[test]
fn handled_key_shows_the_context() {
    let mut b = BarData::default();
    assert!(b.apply_key_result(&KeyResult::Handled(ctx("", false))));
    assert!(b.visible);
    assert_eq!(b.preedit, "zhong");
    assert_eq!(b.candidates, vec!["中".to_string(), "种".to_string()]);
    assert_eq!(b.active_index, 1);
    assert_eq!(b.page_no, 2);
    assert_eq!(b.total_pages, 4);
    b.show_context(&ctx("", true));
    assert_eq!(b.total_pages, 3);
}

#[test]
fn unhandled_key_leaves_the_bar() {
    let mut b = BarData::default();
    b.show_context(&ctx("", false));
    assert!(!b.apply_key_result(&KeyResult::NotHandled));
    assert!(b.visible);
    assert_eq!(b.candidates, vec!["中".to_string(), "种".to_string()]);
    assert_eq!(b.preedit, "zhong");
}

#[test]
fn selection_hides_only_after_a_commit() {
    let mut b = BarData::default();
    b.show_context(&ctx("", false));
    assert!(!b.apply_selection(&Some(ctx("", false))));
    assert!(b.visible);
    assert!(!b.apply_selection(&None));
    assert!(b.visible);
    assert!(b.apply_selection(&Some(ctx("中", true))));
    assert!(!b.visible);
    assert!(b.candidates.is_empty());
}

#[test]
fn setters_and_redraw() {
    let mut b = BarData::default();
    assert!(b.set_theme("dark".to_string()));
    assert_eq!(b.theme, "dark");
    assert!(b.set_primary_color(1, 2, 3));
    assert_eq!(b.primary_color, (1, 2, 3));
    assert!(!b.set_position(-5, 7));
    assert_eq!((b.pos_x, b.pos_y), (-5, 7));
}

#[test]
fn palettes() {
    let mut b = BarData::default();
    assert!(!b.is_dark());
    assert_eq!(
        b.palette(),
        Palette {
            background: Argb { a: 220, r: 245, g: 245, b: 245 },
            text: Argb { a: 255, r: 40, g: 40, b: 40 },
            highlight: Argb { a: 60, r: 70, g: 130, b: 180 },
            accent: Argb { a: 255, r: 70, g: 130, b: 180 },
        }
    );
    b.set_theme("dark".to_string());
    assert!(b.is_dark());
    let p = b.palette();
    assert_eq!(p.background, Argb { a: 220, r: 30, g: 30, b: 30 });
    assert_eq!(p.text, Argb { a: 255, r: 240, g: 240, b: 240 });
    b.set_theme("Dark".to_string());
    assert!(!b.is_dark());
}

#[test]
fn bar_geometry() {
    let mut b = BarData::default();
    assert_eq!(b.bar_size(), (92, 52));
    assert_eq!(b.row_center(), 32);
    b.show_context(&ctx("", false));
    assert_eq!(b.bar_size(), (164, 72));
    assert_eq!(b.row_center(), 52);
    let slots = b.candidate_slots();
    assert_eq!(slots.len(), 2);
    assert_eq!((slots[0].x, slots[0].label.as_str(), slots[0].highlighted), (12, "1", false));
    assert_eq!((slots[1].x, slots[1].label.as_str(), slots[1].highlighted), (84, "2", true));
}

#[test]
fn many_candidates_label_in_decimal() {
    let mut b = BarData::default();
    b.candidates = (0..12).map(|i| i.to_string()).collect();
    let slots = b.candidate_slots();
    assert_eq!(slots[9].label, "10");
    assert_eq!(slots[11].label, "12");
    assert_eq!(slots[11].x, 12 + 11 * 72);
    assert_eq!(b.bar_size().0, 12 * 72 + 20);
}

#[test]
fn last_page_near_the_integer_limit() {
    let mut b = BarData::default();
    let mut c = ctx("", true);
    c.page_no = i32::MAX - 1;
    b.show_context(&c);
    assert_eq!(b.total_pages, i32::MAX as usize);
    c.highlighted_index = -1;
    b.show_context(&c);
    assert_eq!(b.active_index, usize::MAX);
}

use sudachi_native::morpheme::{render_morphemes, MorphemeObject};

fn morpheme(surface: &str, pos: &[&str], normalized: &str) -> MorphemeObject {
    MorphemeObject {
        surface: surface.to_string(),
        dictionaryForm: normalized.to_string(),
        readingForm: surface.to_string(),
        partOfSpeech: pos.iter().map(|p| p.to_string()).collect(),
        normalizedForm: normalized.to_string(),
        dictionaryId: 0,
        synonymGroupIds: Vec::new(),
        isOov: false,
    }
}

#[test]
fn wakati_joins_surfaces_with_spaces() {
    let ms = vec![
        morpheme("東京", &["名詞", "固有名詞"], "東京"),
        morpheme("に", &["助詞"], "に"),
        morpheme("行く", &["動詞"], "行く"),
    ];
    assert_eq!(render_morphemes(&ms, true, false), "東京 に 行く");
}

#[test]
fn wakati_of_nothing_is_empty() {
    assert_eq!(render_morphemes(&Vec::new(), true, true), "");
}

#[test]
fn detailed_of_nothing_is_only_eos() {
    assert_eq!(render_morphemes(&Vec::new(), false, false), "EOS\n");
}

#[test]
fn detailed_lines_hold_surface_pos_and_normalized_form() {
    let ms = vec![
        morpheme("東京", &["名詞", "固有名詞", "地名"], "東京"),
        morpheme("ＵＳＢ", &["名詞"], "USB"),
    ];
    assert_eq!(
        render_morphemes(&ms, false, false),
        "東京\t名詞,固有名詞,地名\t東京\nＵＳＢ\t名詞\tUSB\nEOS\n"
    );
}

#[test]
fn detailed_line_with_no_tags_keeps_both_tabs() {
    let ms = vec![morpheme("x", &[], "x")];
    assert_eq!(render_morphemes(&ms, false, false), "x\t\tx\nEOS\n");
}

#[test]
fn print_all_adds_forms_id_synonyms_and_oov_marker() {
    let mut m = morpheme("すもも", &["名詞", "普通名詞"], "李");
    m.dictionaryForm = "すもも".to_string();
    m.readingForm = "スモモ".to_string();
    m.dictionaryId = 1;
    m.synonymGroupIds = vec![7, 1204, 0];
    let mut unknown = morpheme("☃", &["補助記号"], "☃");
    unknown.dictionaryId = -1;
    unknown.isOov = true;
    let ms = vec![m, unknown];
    assert_eq!(
        render_morphemes(&ms, false, true),
        "すもも\t名詞,普通名詞\t李\tすもも\tスモモ\t1\t[7, 1204, 0]\n\
         ☃\t補助記号\t☃\t☃\t☃\t-1\t[]\t(OOV)\nEOS\n"
    );
}

#[test]
fn synonym_list_matches_debug_notation() {
    let mut m = morpheme("a", &["x"], "a");
    m.synonymGroupIds = vec![u32::MAX, 10, 9];
    let text = render_morphemes(&vec![m.clone()], false, true);
    let expected = format!("a\tx\ta\ta\ta\t0\t{:?}\nEOS\n", m.synonymGroupIds);
    assert_eq!(text, expected);
}

#[test]
fn extreme_dictionary_ids_are_written_in_full() {
    let mut low = morpheme("a", &["x"], "a");
    low.dictionaryId = i32::MIN;
    let mut high = morpheme("b", &["x"], "b");
    high.dictionaryId = i32::MAX;
    assert_eq!(
        render_morphemes(&vec![low, high], false, true),
        "a\tx\ta\ta\ta\t-2147483648\t[]\nb\tx\tb\tb\tb\t2147483647\t[]\nEOS\n"
    );
}

#[test]
fn print_all_is_ignored_by_wakati() {
    let mut m = morpheme("猫", &["名詞"], "猫");
    m.isOov = true;
    assert_eq!(render_morphemes(&vec![m], true, true), "猫");
}

use word_lookup::display::WordDisplay;
use word_lookup::model::LexicalEntry;
use word_lookup::model::WordRecord;
use word_lookup::options::DisplayOptions;
use word_lookup::parser::ParseError;
use word_lookup::parser::parse_word_json;
use word_lookup::pipeline::handle_word_json;

const HAPPY_JSON: &str = "{\"word\":\"happy\",\"pronunciation\":{\"all\":\"ˈhæpi\"},\"results\":[{\"definition\":\"feeling pleasure\",\"partOfSpeech\":\"adjective\"}]}";

fn options() -> DisplayOptions {
    DisplayOptions::new()
}

fn sample_entry() -> LexicalEntry {
    LexicalEntry {
        part_of_speech: Some("noun".to_string()),
        definition: "a vehicle".to_string(),
        antonyms: None,
        synonyms: None,
        hypernyms: None,
        hyponyms: None,
        holonyms: None,
    }
}

#[test]
fn parses_the_full_happy_payload() {
    let record = parse_word_json(HAPPY_JSON).expect("well-formed payload");
    assert_eq!(record.word, "happy");
    let pron = record.pronunciation.as_ref().expect("pronunciation present");
    assert_eq!(pron.len(), 1);
    assert_eq!(pron[0], ("all".to_string(), "ˈhæpi".to_string()));
    assert_eq!(record.entries.len(), 1);
    assert_eq!(record.entries[0].definition, "feeling pleasure");
    assert_eq!(
        record.entries[0].part_of_speech,
        Some("adjective".to_string())
    );
    assert_eq!(record.entries[0].antonyms, None);
    assert_eq!(record.entries[0].synonyms, None);
}

#[test]
fn malformed_text_is_a_syntax_error() {
    let r = parse_word_json("{not json");
    assert!(matches!(r, Err(ParseError::Syntax)));
}

#[test]
fn wrong_shape_is_a_shape_error() {
    assert!(matches!(parse_word_json("[1,2,3]"), Err(ParseError::Shape)));
    // the word is required
    assert!(matches!(
        parse_word_json("{\"results\":[]}"),
        Err(ParseError::Shape)
    ));
    // the results list is required
    assert!(matches!(
        parse_word_json("{\"word\":\"x\"}"),
        Err(ParseError::Shape)
    ));
    // a sense must carry a definition
    assert!(matches!(
        parse_word_json("{\"word\":\"x\",\"results\":[{\"partOfSpeech\":\"noun\"}]}"),
        Err(ParseError::Shape)
    ));
}

#[test]
fn absent_and_null_relation_lists_stay_absent_but_empty_lists_stay_empty() {
    let record = parse_word_json(
        "{\"word\":\"x\",\"results\":[{\"definition\":\"d\",\"antonyms\":null,\"synonyms\":[]}]}",
    )
    .expect("well-formed payload");
    assert_eq!(record.entries[0].antonyms, None);
    assert_eq!(record.entries[0].synonyms, Some(vec![]));
}

#[test]
fn absent_part_of_speech_parses_and_renders_as_placeholder() {
    let record = parse_word_json("{\"word\":\"x\",\"results\":[{\"definition\":\"d\"}]}")
        .expect("well-formed payload");
    assert_eq!(record.entries[0].part_of_speech, None);
    let display = WordDisplay::new(record, options());
    assert_eq!(display.display_word_data(), "(?) d\n\n");
}

#[test]
fn missing_relation_list_renders_as_none_marker() {
    let mut opts = options();
    opts.antonym = true;
    let entry = sample_entry();
    let record = WordRecord {
        word: "truck".to_string(),
        pronunciation: None,
        entries: vec![entry],
    };
    let display = WordDisplay::new(record, opts);
    assert_eq!(
        display.display_word_data(),
        "(noun) a vehicle\n   antonyms: (None)\n\n"
    );
}

#[test]
fn empty_relation_list_renders_as_empty_string_after_the_label() {
    let mut opts = options();
    opts.antonym = true;
    let mut entry = sample_entry();
    entry.antonyms = Some(vec![]);
    let record = WordRecord {
        word: "truck".to_string(),
        pronunciation: None,
        entries: vec![entry],
    };
    let display = WordDisplay::new(record, opts);
    assert_eq!(
        display.display_word_data(),
        "(noun) a vehicle\n   antonyms: \n\n"
    );
}

#[test]
fn relation_values_are_joined_with_commas() {
    let mut opts = options();
    opts.synonym = true;
    let mut entry = sample_entry();
    entry.synonyms = Some(vec![
        "lorry".to_string(),
        "wagon".to_string(),
        "van".to_string(),
    ]);
    let record = WordRecord {
        word: "truck".to_string(),
        pronunciation: None,
        entries: vec![entry],
    };
    let display = WordDisplay::new(record, opts);
    assert_eq!(
        display.display_word_data(),
        "(noun) a vehicle\n   synonyms: lorry,wagon,van\n\n"
    );
}

#[test]
fn all_flag_renders_every_relation_in_fixed_order() {
    let mut opts = options();
    opts.all = true;
    let mut entry = sample_entry();
    entry.antonyms = Some(vec!["a".to_string()]);
    entry.synonyms = Some(vec!["s".to_string()]);
    entry.hypernyms = Some(vec!["e".to_string()]);
    entry.hyponyms = Some(vec!["o".to_string()]);
    entry.holonyms = Some(vec!["l".to_string()]);
    let record = WordRecord {
        word: "truck".to_string(),
        pronunciation: None,
        entries: vec![entry],
    };
    let display = WordDisplay::new(record, opts);
    assert_eq!(
        display.display_word_data(),
        "(noun) a vehicle\n   antonyms: a\n   synonyms: s\n   hypernyms: e\n   hyponyms: o\n   holonyms: l\n\n"
    );
}

#[test]
fn pronunciation_without_the_all_variant_renders_empty_pipes() {
    let record = WordRecord {
        word: "truck".to_string(),
        pronunciation: Some(vec![("us".to_string(), "trək".to_string())]),
        entries: vec![],
    };
    let display = WordDisplay::new(record, options());
    assert_eq!(display.display_word_data(), "truck ||\n");
}

#[test]
fn record_without_pronunciation_renders_no_word_line() {
    let record = WordRecord {
        word: "truck".to_string(),
        pronunciation: None,
        entries: vec![sample_entry()],
    };
    let display = WordDisplay::new(record, options());
    assert_eq!(display.display_word_data(), "(noun) a vehicle\n\n");
}

#[test]
fn end_to_end_happy_renders_word_line_and_definition() {
    let out = handle_word_json(HAPPY_JSON, &options()).expect("structured rendering");
    assert_eq!(out, "happy |ˈhæpi|\n(adjective) feeling pleasure\n\n");
}

#[test]
fn end_to_end_happy_with_antonym_flag_appends_none_marker() {
    let mut opts = options();
    opts.antonym = true;
    let out = handle_word_json(HAPPY_JSON, &opts).expect("structured rendering");
    assert_eq!(
        out,
        "happy |ˈhæpi|\n(adjective) feeling pleasure\n   antonyms: (None)\n\n"
    );
}

#[test]
fn raw_mode_hands_the_payload_back_verbatim() {
    let mut opts = options();
    opts.json = true;
    assert_eq!(
        handle_word_json(HAPPY_JSON, &opts),
        Ok(HAPPY_JSON.to_string())
    );
}

#[test]
fn raw_mode_succeeds_even_on_malformed_json() {
    let mut opts = options();
    opts.json = true;
    assert_eq!(
        handle_word_json("{not json", &opts),
        Ok("{not json".to_string())
    );
}

#[test]
fn structured_mode_reports_parse_failure_without_aborting() {
    let r = handle_word_json("{not json", &options());
    assert_eq!(r, Err(ParseError::Syntax));
    let r = handle_word_json("[]", &options());
    assert_eq!(r, Err(ParseError::Shape));
}

#[test]
fn default_options_leave_every_flag_off() {
    let opts = DisplayOptions::default();
    assert_eq!(opts, DisplayOptions::new());
    assert!(!opts.antonym && !opts.synonym && !opts.hypernym);
    assert!(!opts.hyponym && !opts.holonym && !opts.all);
    assert!(!opts.json && !opts.verbose);
}

#[test]
fn pronunciation_lookup_picks_the_all_variant_among_several() {
    let record = parse_word_json(
        "{\"word\":\"either\",\"pronunciation\":{\"uk\":\"ˈaɪðə\",\"all\":\"ˈiːðər\"},\"results\":[]}",
    )
    .expect("well-formed payload");
    let display = WordDisplay::new(record, options());
    assert_eq!(display.display_word_data(), "either |ˈiːðər|\n");
}

#[test]
fn several_senses_render_in_order_each_closed_by_a_blank_line() {
    let record = parse_word_json(
        "{\"word\":\"run\",\"results\":[{\"definition\":\"move fast\",\"partOfSpeech\":\"verb\"},{\"definition\":\"a jog\",\"partOfSpeech\":\"noun\"}]}",
    )
    .expect("well-formed payload");
    let display = WordDisplay::new(record, options());
    assert_eq!(
        display.display_word_data(),
        "(verb) move fast\n\n(noun) a jog\n\n"
    );
}

#[test]
fn empty_results_with_no_pronunciation_render_nothing() {
    let out = handle_word_json("{\"word\":\"x\",\"results\":[]}", &options())
        .expect("structured rendering");
    assert_eq!(out, "");
}

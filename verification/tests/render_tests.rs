//! Tests of the line renderer: passthrough, field layout, timestamp
//! normalization, color bracketing, concise mode and extra fields.

use logzy::render::{LogRenderer, RenderError};
use termion::color::{Cyan, LightGreen, Reset};

fn reset_both() -> String {
    format!("{}{}", Reset.fg_str(), Reset.bg_str())
}

#[test]
fn not_json() {
    let log = "This is a test log that isn't json-formatted";
    let output_log = LogRenderer::default().format_log(log, false).unwrap();
    assert_eq!(log, &output_log);
}

#[test]
fn is_json() {
    let message = "This is a json-formatted log";
    let log = format!(
        "{{\"msg\":\"{}\",\"ts\":\"2017-09-28T15:06:19.898587457+00:00\",\
         \"level\":\"INFO\",\"component\":\"service1\",\"random_key\":\"blah\"}}",
        message
    );

    let output_log = LogRenderer::default().format_log(&log, false).unwrap();

    let expected = format!(
        "2017-09-28 15:06:19.898587 {}INFO {} service1       {} {}random_key{}:\"blah\"",
        LightGreen.fg_str(),
        reset_both(),
        message,
        Cyan.fg_str(),
        reset_both(),
    );

    assert_eq!(output_log, expected);
}

#[test]
fn millisecond_ts() {
    let log = "{\"msg\":\"Hello world!\",\"ts\":\"2017-09-28T15:06:19.898Z\",\
               \"level\":\"INFO\",\"component\":\"service1\"}";

    assert_eq!(
        LogRenderer::default().format_log(log, false).unwrap(),
        format!(
            "2017-09-28 15:06:19.898000 {}INFO {} service1       Hello world!",
            LightGreen.fg_str(),
            reset_both(),
        )
    );
}

#[test]
fn concise_output() {
    let message = "This is a json-formatted log";
    let log = format!(
        "{{\"msg\":\"{}\",\"ts\":\"2017-09-28T15:06:19.898587457+00:00\",\
         \"level\":\"INFO\",\"component\":\"service1\",\"random_key\":\"blah\"}}",
        message
    );

    let output_log = LogRenderer::default().format_log(&log, true).unwrap();

    let expected = format!(
        "2017-09-28 15:06:19.898587 {}INFO {} service1       {}",
        LightGreen.fg_str(),
        reset_both(),
        message
    );

    assert_eq!(output_log, expected);
}

#[test]
fn has_subcomponent_field() {
    let message = "This is a json-formatted log from subcomponent 'Tiny'";
    let log = format!(
        "{{\"msg\":\"{}\",\"ts\":\"2017-09-28T15:06:19.898587457+00:00\",\
         \"level\":\"INFO\",\"component\":\"service1\",\"subcomponent\":\"Tiny\",\
         \"random_key\":\"blah\"}}",
        message
    );

    let output_log = LogRenderer::default().format_log(&log, false).unwrap();

    let expected = format!(
        "2017-09-28 15:06:19.898587 {}INFO {} service1-Tiny  {} {}random_key{}:\"blah\"",
        LightGreen.fg_str(),
        reset_both(),
        message,
        Cyan.fg_str(),
        reset_both(),
    );

    assert_eq!(output_log, expected);
}

#[test]
fn plain_rendering_without_color() {
    let log = "{\"msg\":\"Hello world!\",\"ts\":\"2017-09-28T15:06:19.898Z\",\
               \"level\":\"INFO\",\"component\":\"service1\"}";
    let output = LogRenderer::new(None).format_log(log, false).unwrap();
    assert_eq!(output, "2017-09-28 15:06:19.898000 INFO  service1       Hello world!");
    assert!(!output.contains('\u{1b}'));
}

#[test]
fn concise_is_prefix_of_full() {
    let log = "{\"msg\":\"m\",\"ts\":\"2017-09-28T15:06:19.898Z\",\"level\":\"warn\",\
               \"a\":1,\"b\":true}";
    let renderer = LogRenderer::new(None);
    let concise = renderer.format_log(log, true).unwrap();
    let full = renderer.format_log(log, false).unwrap();
    assert!(full.starts_with(&concise));
    assert_eq!(full, format!("{} a:1 b:true", concise));
}

#[test]
fn extra_fields_keep_order_and_literal_form() {
    let log = "{\"ts\":\"2017-09-28T15:06:19.898Z\",\"n\":1,\"b\":true,\"z\":null,\
               \"a\":[1,\"x\"],\"o\":{\"k\":2}}";
    let output = LogRenderer::new(None).format_log(log, false).unwrap();
    assert_eq!(
        output,
        format!(
            "2017-09-28 15:06:19.898000{} n:1 b:true z:null a:[1,\"x\"] o:{{\"k\":2}}",
            " ".repeat(17)
        )
    );
}

#[test]
fn non_string_recognized_fields_default_to_empty() {
    let log = "{\"ts\":\"2017-09-28T15:06:19.898Z\",\"level\":7,\"component\":true,\
               \"msg\":\"m\"}";
    let output = LogRenderer::new(None).format_log(log, false).unwrap();
    assert_eq!(output, format!("2017-09-28 15:06:19.898000{}m", " ".repeat(17)));
}

#[test]
fn json_but_not_object_passes_through() {
    let renderer = LogRenderer::default();
    for log in ["[1,2,3]", "\"just a string\"", "42", "null", "true"] {
        assert_eq!(renderer.format_log(log, false).unwrap(), log);
    }
}

#[test]
fn missing_or_bad_timestamp_is_an_error() {
    let renderer = LogRenderer::new(None);
    assert_eq!(renderer.format_log("{\"msg\":\"x\"}", false), Err(RenderError::BadTimestamp));
    assert_eq!(renderer.format_log("{}", false), Err(RenderError::BadTimestamp));
    assert_eq!(
        renderer.format_log("{\"ts\":\"yesterday\",\"msg\":\"x\"}", false),
        Err(RenderError::BadTimestamp)
    );
    assert_eq!(
        renderer.format_log("{\"ts\":7,\"msg\":\"x\"}", false),
        Err(RenderError::BadTimestamp)
    );
}

#[test]
fn level_matching_is_case_insensitive() {
    let log = "{\"ts\":\"2017-09-28T15:06:19.898Z\",\"level\":\"Info\"}";
    let output = LogRenderer::default().format_log(log, false).unwrap();
    assert_eq!(
        output,
        format!(
            "2017-09-28 15:06:19.898000 {}Info {}{}",
            LightGreen.fg_str(),
            reset_both(),
            " ".repeat(11),
        )
    );
}

#[test]
fn unknown_level_still_resets_colors() {
    let log = "{\"ts\":\"2017-09-28T15:06:19.898Z\",\"level\":\"DEBUG\"}";
    let output = LogRenderer::default().format_log(log, false).unwrap();
    assert_eq!(
        output,
        format!("2017-09-28 15:06:19.898000 DEBUG{}{}", reset_both(), " ".repeat(11))
    );
}

#[test]
fn carriage_returns_become_spaces() {
    let log = "{\"ts\":\"2017-09-28T15:06:19.898Z\",\"msg\":\"a\\rb\\rc\"}";
    let output = LogRenderer::new(None).format_log(log, false).unwrap();
    assert_eq!(output, format!("2017-09-28 15:06:19.898000{}a b c", " ".repeat(17)));
}

#[test]
fn timestamp_keeps_the_input_offset() {
    let log = "{\"ts\":\"2017-09-28T15:06:19.898587457+02:00\",\"msg\":\"m\"}";
    let output = LogRenderer::new(None).format_log(log, false).unwrap();
    assert_eq!(output, format!("2017-09-28 15:06:19.898587{}m", " ".repeat(17)));
}

#[test]
fn subcomponent_without_color() {
    let log = "{\"msg\":\"Hello world!\",\"ts\":\"2017-09-28T15:06:19.898Z\",\
               \"level\":\"INFO\",\"component\":\"service1\",\"subcomponent\":\"Tiny\"}";
    let output = LogRenderer::new(None).format_log(log, false).unwrap();
    assert_eq!(output, "2017-09-28 15:06:19.898000 INFO  service1-Tiny  Hello world!");
}

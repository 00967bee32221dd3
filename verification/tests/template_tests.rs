use covermint::metadata::template::{
    compile_template, render_metadata, render_template, validate_template, TemplateField,
};
use covermint::model::media::TrackMetadata;
use covermint::model::metadata::{MetadataConfig, TruncateMode};

fn sample() -> TrackMetadata {
    TrackMetadata {
        artist: "Boards of Canada".to_string(),
        title: "Roygbiv".to_string(),
        album: "Music Has the Right to Children".to_string(),
        track_number: "7".to_string(),
        length: "2:31".to_string(),
        length_microseconds: Some(151_000_000),
        position: "0:42".to_string(),
        position_microseconds: Some(42_000_000),
    }
}

#[test]
fn fields_are_named_exactly() {
    assert_eq!(TemplateField::parse("artist"), Some(TemplateField::Artist));
    assert_eq!(TemplateField::parse("trackNumber"), Some(TemplateField::TrackNumber));
    assert_eq!(TemplateField::parse("timestamp"), Some(TemplateField::Position));
    assert_eq!(TemplateField::parse("Artist"), None);
    let m = sample();
    assert_eq!(TemplateField::Album.value(&m), "Music Has the Right to Children");
    assert_eq!(TemplateField::Length.value(&m), "2:31");
}

#[test]
fn template_renders_fields_and_line_breaks() {
    let m = sample();
    let r = render_template("{{artist}}\\n{{ title : start }} ({{position}}/{{length}})", &m, TruncateMode::End).unwrap();
    assert_eq!(r.text, "Boards of Canada\nRoygbiv (0:42/2:31)");
    assert_eq!(r.truncate, TruncateMode::Start);
}

#[test]
fn plain_text_renders_itself() {
    let m = sample();
    let r = render_template("just text", &m, TruncateMode::End).unwrap();
    assert_eq!(r.text, "just text");
    assert_eq!(r.truncate, TruncateMode::End);
    let r = render_template("", &m, TruncateMode::Start).unwrap();
    assert_eq!(r.text, "");
}

#[test]
fn last_modifier_wins() {
    let m = sample();
    let r = render_template("{{artist:start}} {{title:end}}", &m, TruncateMode::Start).unwrap();
    assert_eq!(r.truncate, TruncateMode::End);
}

#[test]
fn template_errors() {
    assert_eq!(validate_template("{{artist"), Err("unterminated template placeholder".to_string()));
    assert_eq!(validate_template("{{genre}}"), Err("unknown template field '{{genre}}'".to_string()));
    assert_eq!(
        validate_template("{{title:middle}}"),
        Err("unsupported template modifier 'middle', expected :start or :end".to_string())
    );
    assert_eq!(validate_template("a }} b"), Ok(()));
    assert!(compile_template("{{album}}").is_ok());
}

#[test]
fn render_metadata_skips_disabled_sections() {
    let m = sample();
    let mut config = MetadataConfig::default();
    let r = render_metadata(&config, &m);
    assert_eq!(r.top.unwrap().text, "Boards of Canada");
    assert_eq!(r.left.unwrap().text, "Roygbiv");
    config.left.enabled = false;
    config.top.template = "{{oops}}".to_string();
    let r = render_metadata(&config, &m);
    assert!(r.top.is_none());
    assert!(r.left.is_none());
    config.enabled = false;
    config.top.template = "{{artist}}".to_string();
    assert!(render_metadata(&config, &m).top.is_none());
}

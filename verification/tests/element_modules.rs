use domatt::audio::{CrossOrigin, AudioCrossOriginOptions, Muted, Preload, AudioPreloadOptions};
use domatt::base::{BaseAttribute, Href, Target};
use domatt::blockquote::Cite;
use domatt::button::{FormEncType, FormEncTypeOption, FormTarget, Type as ButtonType,
                     ButtonTypeOption};
use domatt::canvas::{Height, Width};
use domatt::col::Span;
use domatt::data::Value as DataValue;
use domatt::li::Value as LiValue;
use domatt::Attribute;
use domatt::{TargetOption, Url};

#[test]
fn audio_attributes_serialize() {
    assert_eq!(Muted.get_key(), "muted");
    assert_eq!(Muted.get_val(), None);
    let co = CrossOrigin::new(AudioCrossOriginOptions::UseCredentials);
    assert_eq!(co.get_key(), "crossorigin");
    assert_eq!(co.get_val(), Some("use-credentials"));
    let p = Preload::new(AudioPreloadOptions::Metadata);
    assert_eq!(p.get_val(), Some("metadata"));
}

fn accepted_on_base<T: BaseAttribute>(_attr: &T) {}

#[test]
fn base_reuses_the_anchor_attributes() {
    let href = Href::new(Url::parse("https://example.com/base").unwrap());
    accepted_on_base(&href);
    assert_eq!(href.get_val(), Some("https://example.com/base"));
    let target = Target::new(TargetOption::Parent);
    accepted_on_base(&target);
    assert_eq!(target.get_val(), Some("_parent"));
}

#[test]
fn blockquote_cite_stores_the_url() {
    let cite = Cite::new(Url::parse("https://example.com/quote").unwrap());
    assert_eq!(cite.get_key(), "cite");
    assert_eq!(cite.get_val(), Some("https://example.com/quote"));
}

#[test]
fn button_attributes_serialize() {
    let enc = FormEncType::new(FormEncTypeOption::Multipart);
    assert_eq!(enc.get_key(), "formenctype");
    let t = ButtonType::new(ButtonTypeOption::Submit);
    assert_eq!(t.get_key(), "type");
    assert_eq!(t.get_val(), Some("submit"));
    let ft = FormTarget::new(TargetOption::Blank);
    assert_eq!(ft.get_val(), Some("_blank"));
}

#[test]
fn canvas_sizes_render_in_decimal() {
    assert_eq!(Height::new(480).get_val(), Some("480"));
    assert_eq!(Width::new(640).get_val(), Some("640"));
}

#[test]
fn col_li_and_data_values_serialize() {
    assert_eq!(Span::new(3).get_key(), "span");
    assert_eq!(Span::new(3).get_val(), Some("3"));
    assert_eq!(LiValue::new(7).get_val(), Some("7"));
    let dv = DataValue::new(String::from("21053"));
    assert_eq!(dv.get_key(), "value");
    assert_eq!(dv.get_val(), Some("21053"));
}

//! What is shown of the service's answer: the text and its rendering as a
//! piece of HTML, or a line that reports an answer without one.

use vstd::prelude::*;
use crate::json::{
    json_as_str, json_debug, json_debug_text, json_member, json_member_text, json_parse,
    json_parsed_text, json_string_content,
};

verus! {

/// The style sheet that goes before the HTML.
pub const CSS: &'static str = r#"<style type="text/css">
.engine {
  font-family: "MiSansVF";
  font-size: 18px;
  color: #578bc5;
}
.originalText {
    font-size: 120%;
    font-family: "MiSansVF";
    font-weight: 600;
    display: inline-block;
    margin: 0rem 0rem 0rem 0rem;
    color: #2a5598;
    margin-bottom: 0.6rem;
}
.frame {
    margin: 1rem 0.5rem 0.5rem 0;
    padding: 0.7rem 0.5rem 0.5rem 0;
    border-top: 3px dashed #eaeef6;
}
definition {
    font-family: "MiSansVF";
    color: #2a5598;
    height: 120px;
    padding: 0.05em;
    font-weight: 500;
    font-size: 16px;
}
</style>"#;

/// Why an answer cannot be shown at all.
#[derive(Clone, Copy, Debug, PartialEq, Eq, Structural)]
pub enum ResponseError {
    /// The body is not one JSON value.
    Malformed,
}

/// The page for a translation: the style sheet, then the original text and
/// the translated one in their tags, each line ended by a newline.
pub open spec fn translation_page(original: Seq<char>, translated: Seq<char>) -> Seq<char> {
    CSS@ + "\n<div class=\"originalText\">"@ + original
        + "</div>\n<br><br>\n<div class=\"frame\">\n<definition>"@ + translated
        + "</definition>\n</div>\n<br>\n"@
}

/// The line for an answer without a translation, which shows the answer.
pub open spec fn failure_line(shown: Seq<char>) -> Seq<char> {
    "Api response error! Response: "@ + shown + "\n"@
}

/// What is printed for an answer: the page where it holds a translated
/// text, the line with the answer as `shown` where it holds none.
pub open spec fn rendered(original: Seq<char>, translated: Option<Seq<char>>, shown: Seq<char>)
    -> Seq<char> {
    match translated {
        Some(text) => translation_page(original, text),
        None => failure_line(shown),
    }
}

/// The translated text in the answer with text `reply`: the string under
/// `Response`, then `TargetText`, if there is one.
pub open spec fn target_text(reply: Seq<char>) -> Option<Seq<char>> {
    json_string_content(json_member_text(json_member_text(reply, "Response"@), "TargetText"@))
}

/// What presenting the body of an answer comes to.
pub open spec fn presented(original: Seq<char>, body: Seq<u8>) -> Result<Seq<char>, ResponseError> {
    match json_parsed_text(body) {
        None => Err(ResponseError::Malformed),
        Some(reply) => Ok(rendered(original, target_text(reply), json_debug_text(reply))),
    }
}

/// Renders the page that shows `original` and its translation.
pub fn render_translation(original: &str, translated: &str) -> (page: String)
    ensures
        page@ == translation_page(original@, translated@),
{
    let mut page = String::from_str(CSS);
    page.append("\n<div class=\"originalText\">");
    page.append(original);
    page.append("</div>\n<br><br>\n<div class=\"frame\">\n<definition>");
    page.append(translated);
    page.append("</definition>\n</div>\n<br>\n");
    page
}

/// Renders the line that reports an answer without a translation.
pub fn render_failure(shown: &str) -> (line: String)
    ensures
        line@ == failure_line(shown@),
{
    let mut line = String::from_str("Api response error! Response: ");
    line.append(shown);
    line.append("\n");
    line
}

/// Renders what is printed for an answer, given the translated text it
/// holds, if any, and the answer as shown for troubleshooting.
pub fn render(original: &str, translated: Option<&str>, shown: &str) -> (out: String)
    ensures
        out@ == rendered(
            original@,
            match translated {
                Some(text) => Some(text@),
                None => None,
            },
            shown@,
        ),
{
    match translated {
        Some(text) => render_translation(original, text),
        None => render_failure(shown),
    }
}

/// Reads the body of the service's answer and renders what is printed for
/// it. A body that is not JSON is an error; an answer without a translated
/// text is not: it is reported in the output.
pub fn present(original: &str, body: &[u8]) -> (r: Result<String, ResponseError>)
    ensures
        match r {
            Ok(out) => presented(original@, body@) == Ok::<Seq<char>, ResponseError>(out@),
            Err(e) => presented(original@, body@) == Err::<Seq<char>, ResponseError>(e),
        },
{
    let reply = match json_parse(body) {
        Ok(value) => value,
        Err(_) => {
            return Err(ResponseError::Malformed);
        },
    };
    let translated = json_as_str(json_member(json_member(&reply, "Response"), "TargetText"));
    let shown = json_debug(&reply);
    Ok(render(original, translated, shown.as_str()))
}

} // verus!

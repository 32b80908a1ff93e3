//! Renderer adapter: normalizes a job's content into printable PDF bytes.
//! A `pdf` job is a pure base64 decode; `html` and `url` jobs become exact
//! instructions for the opaque external rendering engine.

use vstd::prelude::*;
use vstd::string::StringExecFns;
use base64::Engine;

verus! {

/// The formats a job's content may arrive in.
#[derive(Clone, Copy, PartialEq, Eq, Structural, Debug)]
pub enum JobFormat {
    Html,
    Url,
    Pdf,
}

/// The ways rendering can fail.
#[derive(Clone, Copy, PartialEq, Eq, Structural, Debug)]
pub enum RenderFailure {
    /// The content of a `pdf` job is not valid base64.
    InvalidEncoding,
    /// The rendering engine could not start, navigate, or export.
    RenderEngineError,
    /// The authorization header could not be attached to the navigation.
    HeaderInjectionError,
}

/// What the standard base64 engine decodes a string to; `None` where the
/// input is not valid standard base64.
pub uninterp spec fn b64_decoded(s: Seq<char>) -> Option<Seq<u8>>;

/// Relies on base64's `STANDARD` engine: `decode` is a pure function of the
/// input characters, `Ok` exactly on valid standard base64.
#[verifier::external_body]
fn base64_decode(content: &str) -> (r: Option<Vec<u8>>)
    ensures
        (match r {
            Some(v) => b64_decoded(content@) == Some(v@),
            None => b64_decoded(content@) is None,
        }),
{
    match base64::engine::general_purpose::STANDARD.decode(content) {
        Ok(v) => Some(v),
        Err(_) => None,
    }
}

/// Decode the content of a `pdf` job into the artifact bytes; the only
/// failure is content that is not valid base64.
pub fn render_pdf(content: &str) -> (r: Result<Vec<u8>, RenderFailure>)
    ensures
        (match r {
            Ok(v) => b64_decoded(content@) == Some(v@),
            Err(f) => f == RenderFailure::InvalidEncoding && b64_decoded(content@) is None,
        }),
{
    match base64_decode(content) {
        Some(v) => Ok(v),
        None => Err(RenderFailure::InvalidEncoding),
    }
}

/// Instructions handed to the opaque rendering engine.
#[derive(Debug, PartialEq)]
pub enum RenderPlan {
    /// Render an inline HTML document, addressed as a data URL.
    InlineHtml { data_url: String },
    /// Navigate to a URL, optionally with an authorization header, honoring
    /// the document's own CSS page size in the export.
    Navigate { url: String, authorization: Option<String>, prefer_css_page_size: bool },
}

/// The data URL under which an inline HTML document is rendered.
pub open spec fn data_url_of(content: Seq<char>) -> Seq<char> {
    "data:text/html,"@ + content
}

/// The bearer authorization header attached for a non-empty token.
pub open spec fn bearer_header_of(token: Seq<char>) -> Seq<char> {
    "Bearer "@ + token
}

/// The plan a job's format, content and token call for; only `pdf` needs no
/// engine and has no plan.
pub open spec fn plan_for(
    format: JobFormat,
    content: Seq<char>,
    auth_token: Seq<char>,
    plan: RenderPlan,
) -> bool {
    match format {
        JobFormat::Html => (match plan {
            RenderPlan::InlineHtml { data_url } => data_url@ == data_url_of(content),
            _ => false,
        }),
        JobFormat::Url => (match plan {
            RenderPlan::Navigate { url, authorization, prefer_css_page_size } => {
                &&& url@ == content
                &&& prefer_css_page_size
                &&& (match authorization {
                    Some(h) => auth_token.len() > 0 && h@ == bearer_header_of(auth_token),
                    None => auth_token.len() == 0,
                })
            },
            _ => false,
        }),
        JobFormat::Pdf => false,
    }
}

/// Build the rendering-engine instructions for an `html` or `url` job;
/// a `pdf` job needs none.
pub fn plan_render(format: JobFormat, content: &str, auth_token: &str) -> (r: Option<RenderPlan>)
    ensures
        r is None <==> format is Pdf,
        (match r {
            Some(p) => plan_for(format, content@, auth_token@, p),
            None => true,
        }),
{
    match format {
        JobFormat::Html => {
            let mut data_url = String::from_str("data:text/html,");
            data_url.append(content);
            Some(RenderPlan::InlineHtml { data_url })
        },
        JobFormat::Url => {
            let authorization = if auth_token.is_empty() {
                None
            } else {
                let mut header = String::from_str("Bearer ");
                header.append(auth_token);
                Some(header)
            };
            Some(
                RenderPlan::Navigate {
                    url: content.to_owned(),
                    authorization,
                    prefer_css_page_size: true,
                },
            )
        },
        JobFormat::Pdf => None,
    }
}

} // verus!

//! The `Writer` and `Piece` traits and their built-in implementations.

use vstd::prelude::*;

use crate::http::{Request, Response, ResponseView, StatusError};
use crate::Depot;

verus! {

/// The header name every renderer sets: `content-type`.
pub open spec fn content_type_key() -> Seq<char> {
    "content-type"@
}

/// The content-type of plain text.
pub open spec fn text_plain_utf8() -> Seq<char> {
    "text/plain; charset=utf-8"@
}

/// The content-type of JSON text.
pub open spec fn application_json_utf8() -> Seq<char> {
    "application/json; charset=utf-8"@
}

/// The content-type of XML text.
pub open spec fn application_xml_utf8() -> Seq<char> {
    "application/xml; charset=utf-8"@
}

/// The content-type of HTML text.
pub open spec fn text_html_utf8() -> Seq<char> {
    "text/html; charset=utf-8"@
}

/// The content-type of JavaScript text.
pub open spec fn text_javascript_utf8() -> Seq<char> {
    "text/javascript; charset=utf-8"@
}

/// The content-type of CSS text.
pub open spec fn text_css_utf8() -> Seq<char> {
    "text/css; charset=utf-8"@
}

/// One full, successful rendering step: the content-type header and the body
/// are set together, and the status is left as it was.
pub open spec fn renders_to(
    old_res: ResponseView,
    new_res: ResponseView,
    ctype: Seq<char>,
    body: Seq<char>,
) -> bool {
    &&& new_res.headers == old_res.headers.insert(content_type_key(), ctype)
    &&& new_res.body == body
    &&& new_res.status == old_res.status
}

/// A rendering step that failed: the status is forced to "internal server
/// error", while headers and body are left whatever they were before.
pub open spec fn render_failed(old_res: ResponseView, new_res: ResponseView) -> bool {
    &&& new_res.headers == old_res.headers
    &&& new_res.body == old_res.body
    &&& new_res.status == Some(500u16)
}

/// `Writer` is used to write data to a [`Response`], given the request and
/// the per-request state container.
///
/// A writer value is consumed by its one `write` call: reuse is rejected at
/// type-check time, not at run time.
pub trait Writer: Sized {
    /// What this writer does to the response: relates the response before the
    /// call to the response after it.
    spec fn write_spec(self, old_res: ResponseView, new_res: ResponseView) -> bool;

    /// Write data to the [`Response`].
    fn write(self, req: &mut Request, depot: &mut Depot, res: &mut Response)
        ensures
            self.write_spec(old(res)@, final(res)@),
    ;
}

/// `Piece` is used to write data to a [`Response`] synchronously, with no
/// access to the request or the state container.
///
/// `Piece` is simpler than [`Writer`], and every `Piece` is a `Writer`.
/// A renderer value is consumed by its one `render` call.
pub trait Piece: Sized {
    /// What this renderer does to the response: relates the response before
    /// the call to the response after it.
    spec fn render_spec(self, old_res: ResponseView, new_res: ResponseView) -> bool;

    /// Render data to the [`Response`].
    fn render(self, res: &mut Response)
        ensures
            self.render_spec(old(res)@, final(res)@),
    ;
}

impl<P: Piece> Writer for P {
    open spec fn write_spec(self, old_res: ResponseView, new_res: ResponseView) -> bool {
        self.render_spec(old_res, new_res)
    }

    fn write(self, _req: &mut Request, _depot: &mut Depot, res: &mut Response) {
        self.render(res)
    }
}

impl<T: Writer, E: Writer> Writer for Result<T, E> {
    open spec fn write_spec(self, old_res: ResponseView, new_res: ResponseView) -> bool {
        match self {
            Ok(v) => v.write_spec(old_res, new_res),
            Err(e) => e.write_spec(old_res, new_res),
        }
    }

    fn write(self, req: &mut Request, depot: &mut Depot, res: &mut Response) {
        match self {
            Ok(v) => v.write(req, depot, res),
            Err(e) => e.write(req, depot, res),
        }
    }
}

impl Piece for () {
    open spec fn render_spec(self, old_res: ResponseView, new_res: ResponseView) -> bool {
        new_res == old_res
    }

    fn render(self, _res: &mut Response) {
    }
}

impl Piece for &'static str {
    open spec fn render_spec(self, old_res: ResponseView, new_res: ResponseView) -> bool {
        renders_to(old_res, new_res, text_plain_utf8(), self@)
    }

    fn render(self, res: &mut Response) {
        res.insert_header("content-type", "text/plain; charset=utf-8");
        res.write_body(self.to_owned());
    }
}

impl<'a> Piece for &'a String {
    open spec fn render_spec(self, old_res: ResponseView, new_res: ResponseView) -> bool {
        renders_to(old_res, new_res, text_plain_utf8(), self@)
    }

    fn render(self, res: &mut Response) {
        res.insert_header("content-type", "text/plain; charset=utf-8");
        res.write_body(self.clone());
    }
}

impl Piece for String {
    open spec fn render_spec(self, old_res: ResponseView, new_res: ResponseView) -> bool {
        renders_to(old_res, new_res, text_plain_utf8(), self@)
    }

    fn render(self, res: &mut Response) {
        res.insert_header("content-type", "text/plain; charset=utf-8");
        res.write_body(self);
    }
}

/// Write text content to the response, tagged with the content-type it must
/// produce. Exactly one kind is active per instance.
pub enum Text<C> {
    /// Sets `content-type` to `text/plain; charset=utf-8`.
    Plain(C),
    /// Sets `content-type` to `application/json; charset=utf-8`. The payload
    /// is written as it is, not re-encoded: the caller supplies pre-formed
    /// JSON text.
    Json(C),
    /// Sets `content-type` to `application/xml; charset=utf-8`.
    Xml(C),
    /// Sets `content-type` to `text/html; charset=utf-8`.
    Html(C),
    /// Sets `content-type` to `text/javascript; charset=utf-8`.
    Js(C),
    /// Sets `content-type` to `text/css; charset=utf-8`.
    Css(C),
}

impl<C> Text<C> {
    /// The fixed content-type string of this kind, one table entry per tag.
    pub open spec fn content_type_spec(self) -> Seq<char> {
        match self {
            Text::Plain(_) => text_plain_utf8(),
            Text::Json(_) => application_json_utf8(),
            Text::Xml(_) => application_xml_utf8(),
            Text::Html(_) => text_html_utf8(),
            Text::Js(_) => text_javascript_utf8(),
            Text::Css(_) => text_css_utf8(),
        }
    }

    /// The payload wrapped by this kind.
    pub open spec fn payload(self) -> C {
        match self {
            Text::Plain(c) => c,
            Text::Json(c) => c,
            Text::Xml(c) => c,
            Text::Html(c) => c,
            Text::Js(c) => c,
            Text::Css(c) => c,
        }
    }

    /// Sets the content-type of `res` to the table entry of the active tag
    /// and hands the payload back, shared by every payload-carrier shape.
    pub fn set_header(self, res: &mut Response) -> (content: C)
        ensures
            final(res)@.headers == old(res)@.headers.insert(
                content_type_key(),
                self.content_type_spec(),
            ),
            final(res)@.status == old(res)@.status,
            final(res)@.body == old(res)@.body,
            content == self.payload(),
    {
        let (ctype, content) = match self {
            Text::Plain(content) => ("text/plain; charset=utf-8", content),
            Text::Json(content) => ("application/json; charset=utf-8", content),
            Text::Xml(content) => ("application/xml; charset=utf-8", content),
            Text::Html(content) => ("text/html; charset=utf-8", content),
            Text::Js(content) => ("text/javascript; charset=utf-8", content),
            Text::Css(content) => ("text/css; charset=utf-8", content),
        };
        res.insert_header("content-type", ctype);
        content
    }
}

impl Piece for Text<&'static str> {
    open spec fn render_spec(self, old_res: ResponseView, new_res: ResponseView) -> bool {
        renders_to(old_res, new_res, self.content_type_spec(), self.payload()@)
    }

    fn render(self, res: &mut Response) {
        let content = self.set_header(res);
        res.write_body(content.to_owned());
    }
}

impl Piece for Text<String> {
    open spec fn render_spec(self, old_res: ResponseView, new_res: ResponseView) -> bool {
        renders_to(old_res, new_res, self.content_type_spec(), self.payload()@)
    }

    fn render(self, res: &mut Response) {
        let content = self.set_header(res);
        res.write_body(content);
    }
}

impl<'a> Piece for Text<&'a String> {
    open spec fn render_spec(self, old_res: ResponseView, new_res: ResponseView) -> bool {
        renders_to(old_res, new_res, self.content_type_spec(), self.payload()@)
    }

    fn render(self, res: &mut Response) {
        let content = self.set_header(res);
        res.write_body(content.clone());
    }
}

/// Declares `serde_json::Error`, the error a failed JSON encoding returns;
/// it is carried through opaquely and never read.
#[verifier::external_type_specification]
#[verifier::external_body]
pub struct ExSerdeJsonError(serde_json::Error);

/// Declares `serde_json::Value`, the tree form of a JSON document; it is
/// carried through opaquely and only ever handed to the encoder.
#[verifier::external_type_specification]
#[verifier::external_body]
pub struct ExSerdeJsonValue(serde_json::Value);

/// Relies on `serde_json::to_string`: encodes `value` as JSON text. Its
/// documentation allows failure only when a `Serialize` implementation
/// decides to fail or a map has non-string keys. Nothing is assumed of the
/// outcome here; [`render_json_result`] handles both.
#[verifier::external_body]
fn encode_json(value: &serde_json::Value) -> Result<String, serde_json::Error> {
    serde_json::to_string(value)
}

/// What [`Json`] can wrap: a value that can encode itself as JSON text.
///
/// No outcome is promised: encoding happens outside this library, and
/// [`render_json_result`] handles success and failure alike.
pub trait ToJson {
    /// Encode `self` as canonical JSON text.
    fn to_json(&self) -> Result<String, serde_json::Error>;
}

impl ToJson for serde_json::Value {
    fn to_json(&self) -> Result<String, serde_json::Error> {
        encode_json(self)
    }
}

/// Finishes a JSON render from the encoder's outcome: a successful encoding
/// becomes the body, together with the JSON content-type; a failed one forces
/// the status to "internal server error" and leaves headers and body alone.
pub fn render_json_result(encoded: Result<String, serde_json::Error>, res: &mut Response)
    ensures
        encoded matches Ok(body) ==> renders_to(
            old(res)@,
            final(res)@,
            application_json_utf8(),
            body@,
        ),
        encoded matches Err(_) ==> render_failed(old(res)@, final(res)@),
{
    match encoded {
        Ok(body) => {
            res.insert_header("content-type", "application/json; charset=utf-8");
            res.write_body(body);
        },
        Err(_) => {
            res.set_status_error(StatusError::internal_server_error());
        },
    }
}

/// Write serializable content to the response as JSON content. On success it
/// sets `content-type` to `application/json; charset=utf-8`.
pub struct Json<T>(pub T);

impl<T: ToJson> Piece for Json<T> {
    open spec fn render_spec(self, old_res: ResponseView, new_res: ResponseView) -> bool {
        ||| exists|body: Seq<char>|
            renders_to(old_res, new_res, application_json_utf8(), body)
        ||| render_failed(old_res, new_res)
    }

    fn render(self, res: &mut Response) {
        let encoded = self.0.to_json();
        let ghost outcome = encoded;
        render_json_result(encoded, res);
        proof {
            match outcome {
                Ok(body) => {
                    assert(renders_to(old(res)@, final(res)@, application_json_utf8(), body@));
                },
                Err(_) => {},
            }
        }
    }
}

/// Every string-like renderer writes plain text: rendering a static slice, an
/// owned string or a borrowed string sets the content-type to
/// `text/plain; charset=utf-8` and the body to exactly the input's
/// characters.
pub proof fn lemma_string_renderers_write_plain_text(
    s: &'static str,
    owned: String,
    borrowed: &String,
    old_res: ResponseView,
    new_res: ResponseView,
)
    ensures
        s.render_spec(old_res, new_res) <==> renders_to(
            old_res,
            new_res,
            text_plain_utf8(),
            s@,
        ),
        owned.render_spec(old_res, new_res) <==> renders_to(
            old_res,
            new_res,
            text_plain_utf8(),
            owned@,
        ),
        borrowed.render_spec(old_res, new_res) <==> renders_to(
            old_res,
            new_res,
            text_plain_utf8(),
            borrowed@,
        ),
{
}

/// Every `Text` kind renders to its table entry: for each payload-carrier
/// shape, rendering sets the content-type to the fixed string of the active
/// tag and the body to exactly the wrapped payload's characters.
pub proof fn lemma_text_renders_its_table_entry<'a>(
    t_static: Text<&'static str>,
    t_owned: Text<String>,
    t_borrowed: Text<&'a String>,
    old_res: ResponseView,
    new_res: ResponseView,
)
    ensures
        t_static.render_spec(old_res, new_res) <==> renders_to(
            old_res,
            new_res,
            t_static.content_type_spec(),
            t_static.payload()@,
        ),
        t_owned.render_spec(old_res, new_res) <==> renders_to(
            old_res,
            new_res,
            t_owned.content_type_spec(),
            t_owned.payload()@,
        ),
        t_borrowed.render_spec(old_res, new_res) <==> renders_to(
            old_res,
            new_res,
            t_borrowed.content_type_spec(),
            t_borrowed.payload()@,
        ),
{
}

/// No two `Text` kinds share a content-type string.
pub proof fn lemma_content_types_distinct()
    ensures
        text_plain_utf8() != application_json_utf8(),
        text_plain_utf8() != application_xml_utf8(),
        text_plain_utf8() != text_html_utf8(),
        text_plain_utf8() != text_javascript_utf8(),
        text_plain_utf8() != text_css_utf8(),
        application_json_utf8() != application_xml_utf8(),
        application_json_utf8() != text_html_utf8(),
        application_json_utf8() != text_javascript_utf8(),
        application_json_utf8() != text_css_utf8(),
        application_xml_utf8() != text_html_utf8(),
        application_xml_utf8() != text_javascript_utf8(),
        application_xml_utf8() != text_css_utf8(),
        text_html_utf8() != text_javascript_utf8(),
        text_html_utf8() != text_css_utf8(),
        text_javascript_utf8() != text_css_utf8(),
{
    reveal_strlit("text/plain; charset=utf-8");
    reveal_strlit("application/json; charset=utf-8");
    reveal_strlit("application/xml; charset=utf-8");
    reveal_strlit("text/html; charset=utf-8");
    reveal_strlit("text/javascript; charset=utf-8");
    reveal_strlit("text/css; charset=utf-8");
    assert(text_plain_utf8().len() == 25);
    assert(application_json_utf8().len() == 31);
    assert(application_xml_utf8().len() == 30);
    assert(text_html_utf8().len() == 24);
    assert(text_javascript_utf8().len() == 30);
    assert(text_css_utf8().len() == 23);
    assert(application_xml_utf8()[0] != text_javascript_utf8()[0]);
}

/// The adapter from renderer to writer adds nothing: any `Piece` writes
/// exactly what it renders, synchronously.
pub proof fn lemma_piece_writes_by_rendering<P: Piece>(
    p: P,
    old_res: ResponseView,
    new_res: ResponseView,
)
    ensures
        p.write_spec(old_res, new_res) <==> p.render_spec(old_res, new_res),
{
}

/// Union dispatch forwards to whichever arm is populated: a success/failure
/// union writes exactly what its active arm writes.
pub proof fn lemma_union_dispatches_to_arm<T: Writer, E: Writer>(
    v: Result<T, E>,
    old_res: ResponseView,
    new_res: ResponseView,
)
    ensures
        v matches Ok(t) ==> (v.write_spec(old_res, new_res) <==> t.write_spec(old_res, new_res)),
        v matches Err(e) ==> (v.write_spec(old_res, new_res) <==> e.write_spec(old_res, new_res)),
{
}

} // verus!

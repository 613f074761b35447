//! Request descriptors: the inert data record describing one outbound HTTP
//! call, together with the fields that carry its outcome after execution.

use vstd::pervasive::VecAdditionalExecFns;
use vstd::prelude::*;

verus! {

broadcast use vstd::string::group_string_axioms;

/// The HTTP method of a request descriptor: the standard methods the HTTP
/// layer names. Extension methods (arbitrary tokens) are not modeled.
#[derive(Clone, Copy, PartialEq, Eq, Structural, Debug)]
pub enum HttpMethod {
    Get,
    Post,
    Put,
    Patch,
    Delete,
    Head,
    Options,
    Connect,
    Trace,
}

/// One field of a multipart form payload: either an inline text value or a
/// file's bytes under a field name.
#[derive(Debug)]
pub enum FormPart {
    Text { name: String, value: String },
    File { name: String, file_name: String, bytes: Vec<u8> },
}

/// The abstract value of a [`FormPart`].
pub ghost enum FormPartView {
    Text { name: Seq<char>, value: Seq<char> },
    File { name: Seq<char>, file_name: Seq<char>, bytes: Seq<u8> },
}

impl View for FormPart {
    type V = FormPartView;

    open spec fn view(&self) -> FormPartView {
        match self {
            FormPart::Text { name, value } => FormPartView::Text { name: name@, value: value@ },
            FormPart::File { name, file_name, bytes } => FormPartView::File {
                name: name@,
                file_name: file_name@,
                bytes: bytes@,
            },
        }
    }
}

/// A multipart form payload: an ordered sequence of parts.
#[derive(Debug)]
pub struct FormData {
    pub parts: Vec<FormPart>,
}

impl View for FormData {
    type V = Seq<FormPartView>;

    open spec fn view(&self) -> Seq<FormPartView> {
        self.parts@.map_values(|p: FormPart| p@)
    }
}

/// The abstract value of a header or option list: name/value pairs in the
/// order they were stored.
pub open spec fn pairs_view(pairs: Seq<(String, String)>) -> Seq<(Seq<char>, Seq<char>)> {
    pairs.map_values(|p: (String, String)| (p.0@, p.1@))
}

/// An option list after one name/value pair is applied with the semantics of
/// a mapping: the value at the key's first occurrence is replaced; a key not
/// yet present is appended at the tail.
pub open spec fn upsert_pair(
    s: Seq<(Seq<char>, Seq<char>)>,
    p: (Seq<char>, Seq<char>),
) -> Seq<(Seq<char>, Seq<char>)>
    decreases s.len(),
{
    if s.len() == 0 {
        seq![p]
    } else if s[0].0 == p.0 {
        seq![p] + s.skip(1)
    } else {
        seq![s[0]] + upsert_pair(s.skip(1), p)
    }
}

/// An option list after each pair of `more` is applied in order, each with
/// the semantics of [`upsert_pair`].
pub open spec fn upsert_pairs(
    s: Seq<(Seq<char>, Seq<char>)>,
    more: Seq<(Seq<char>, Seq<char>)>,
) -> Seq<(Seq<char>, Seq<char>)>
    decreases more.len(),
{
    if more.len() == 0 {
        s
    } else {
        upsert_pairs(upsert_pair(s, more[0]), more.skip(1))
    }
}

/// Where `p`'s key first occurs at position `j`, applying `p` replaces that
/// position and nothing else.
proof fn lemma_upsert_pair_found(
    s: Seq<(Seq<char>, Seq<char>)>,
    p: (Seq<char>, Seq<char>),
    j: int,
)
    requires
        0 <= j < s.len(),
        s[j].0 == p.0,
        forall|m: int| 0 <= m < j ==> s[m].0 != p.0,
    ensures
        upsert_pair(s, p) == s.update(j, p),
    decreases j,
{
    if j == 0 {
        assert(upsert_pair(s, p) =~= s.update(0, p));
    } else {
        assert forall|m: int| 0 <= m < j - 1 implies s.skip(1)[m].0 != p.0 by {
            assert(s.skip(1)[m] == s[m + 1]);
        }
        lemma_upsert_pair_found(s.skip(1), p, j - 1);
        assert(seq![s[0]] + s.skip(1).update(j - 1, p) =~= s.update(j, p));
    }
}

/// Where `p`'s key occurs nowhere, applying `p` appends it.
proof fn lemma_upsert_pair_absent(s: Seq<(Seq<char>, Seq<char>)>, p: (Seq<char>, Seq<char>))
    requires
        forall|m: int| 0 <= m < s.len() ==> s[m].0 != p.0,
    ensures
        upsert_pair(s, p) == s.push(p),
    decreases s.len(),
{
    if s.len() == 0 {
        assert(upsert_pair(s, p) =~= s.push(p));
    } else {
        assert forall|m: int| 0 <= m < s.len() - 1 implies s.skip(1)[m].0 != p.0 by {
            assert(s.skip(1)[m] == s[m + 1]);
        }
        lemma_upsert_pair_absent(s.skip(1), p);
        assert(seq![s[0]] + s.skip(1).push(p) =~= s.push(p));
    }
}

/// Applying one more pair after a batch equals applying it to the batch's
/// result.
proof fn lemma_upsert_pairs_push(
    s: Seq<(Seq<char>, Seq<char>)>,
    more: Seq<(Seq<char>, Seq<char>)>,
    p: (Seq<char>, Seq<char>),
)
    ensures
        upsert_pairs(s, more.push(p)) == upsert_pair(upsert_pairs(s, more), p),
    decreases more.len(),
{
    if more.len() == 0 {
        assert(more.push(p)[0] == p);
        assert(more.push(p).skip(1) =~= Seq::<(Seq<char>, Seq<char>)>::empty());
        assert(upsert_pairs(s, more.push(p)) == upsert_pairs(
            upsert_pair(s, p),
            more.push(p).skip(1),
        ));
        assert(upsert_pairs(upsert_pair(s, p), Seq::<(Seq<char>, Seq<char>)>::empty())
            == upsert_pair(s, p));
    } else {
        assert(more.push(p)[0] == more[0]);
        assert(more.push(p).skip(1) =~= more.skip(1).push(p));
        lemma_upsert_pairs_push(upsert_pair(s, more[0]), more.skip(1), p);
        assert(upsert_pairs(s, more.push(p)) == upsert_pairs(
            upsert_pair(s, more[0]),
            more.skip(1).push(p),
        ));
        assert(upsert_pairs(s, more) == upsert_pairs(upsert_pair(s, more[0]), more.skip(1)));
    }
}

/// The abstract value of an optional string field.
pub open spec fn opt_str_view(o: Option<String>) -> Option<Seq<char>> {
    match o {
        Some(s) => Some(s@),
        None => None,
    }
}

/// The abstract value of a [`Request`].
#[verifier::ext_equal]
pub ghost struct RequestView {
    pub url: Seq<char>,
    pub method: HttpMethod,
    pub post_data: Option<Seq<char>>,
    pub headers: Option<Seq<(Seq<char>, Seq<char>)>>,
    pub options: Seq<(Seq<char>, Seq<char>)>,
    pub extra_info: Option<Seq<char>>,
    pub response_text: Option<Seq<char>>,
    pub response_info: Option<Seq<char>>,
    pub response_error: Option<Seq<char>>,
    pub response_errno: Option<i32>,
    pub multipart_form_data: Option<Seq<FormPartView>>,
}

/// The parts of a form, or the empty sequence where no form is attached.
pub open spec fn form_parts_or_empty(o: Option<Seq<FormPartView>>) -> Seq<FormPartView> {
    match o {
        Some(s) => s,
        None => Seq::empty(),
    }
}

/// Represents an HTTP request with customizable parameters.
#[derive(Debug)]
pub struct Request {
    /// The URL of the request.
    pub url: String,
    /// The HTTP method (e.g., GET, POST).
    pub method: HttpMethod,
    /// Optional data for the request body.
    pub post_data: Option<String>,
    /// Optional HTTP headers, stored as given.
    pub headers: Option<Vec<(String, String)>>,
    /// Additional options for the request; free-form caller metadata.
    pub options: Vec<(String, String)>,
    /// Extra information for custom use, carried through to the outcome.
    pub extra_info: Option<String>,
    /// The response text from the server.
    pub response_text: Option<String>,
    /// Additional response information.
    pub response_info: Option<String>,
    /// Any error message from the response.
    pub response_error: Option<String>,
    /// Error number from the response.
    pub response_errno: Option<i32>,
    /// Optional multipart form data.
    pub multipart_form_data: Option<FormData>,
}

impl View for Request {
    type V = RequestView;

    open spec fn view(&self) -> RequestView {
        RequestView {
            url: self.url@,
            method: self.method,
            post_data: opt_str_view(self.post_data),
            headers: match self.headers {
                Some(h) => Some(pairs_view(h@)),
                None => None,
            },
            options: pairs_view(self.options@),
            extra_info: opt_str_view(self.extra_info),
            response_text: opt_str_view(self.response_text),
            response_info: opt_str_view(self.response_info),
            response_error: opt_str_view(self.response_error),
            response_errno: self.response_errno,
            multipart_form_data: match self.multipart_form_data {
                Some(f) => Some(f@),
                None => None,
            },
        }
    }
}

/// The value a descriptor is dispatched with: the copy taken for a window
/// carries every request and response field, but deliberately leaves the
/// multipart payload behind — a multipart payload is single-use and is not
/// duplicated into dispatch copies.
pub open spec fn dispatch_view(v: RequestView) -> RequestView {
    RequestView { multipart_form_data: None, ..v }
}

/// Copies an optional string field; the copy holds the same value.
fn clone_opt_string(o: &Option<String>) -> (r: Option<String>)
    ensures
        r == *o,
{
    match o {
        Some(s) => Some(s.clone()),
        None => None,
    }
}

/// Copies a list of name/value pairs; the copy holds the same sequence.
fn clone_pairs(v: &Vec<(String, String)>) -> (r: Vec<(String, String)>)
    ensures
        r@ == v@,
{
    let mut r: Vec<(String, String)> = Vec::new();
    let mut i: usize = 0;
    while i < v.len()
        invariant
            i <= v.len(),
            r@ == v@.take(i as int),
        decreases v.len() - i,
    {
        let p = &v[i];
        r.push((p.0.clone(), p.1.clone()));
        proof {
            assert(v@.take(i as int + 1) =~= v@.take(i as int).push(v@[i as int]));
        }
        i += 1;
    }
    proof {
        assert(v@.take(v@.len() as int) =~= v@);
    }
    r
}

impl Request {
    /// Creates a new `Request` with the specified URL and method; every other
    /// field starts out absent or empty.
    pub fn new(url: &str, method: HttpMethod) -> (r: Self)
        ensures
            r@ == (RequestView {
                url: url@,
                method: method,
                post_data: None,
                headers: None,
                options: Seq::empty(),
                extra_info: None,
                response_text: None,
                response_info: None,
                response_error: None,
                response_errno: None,
                multipart_form_data: None,
            }),
    {
        let r = Request {
            url: url.to_string(),
            method,
            post_data: None,
            headers: None,
            options: Vec::new(),
            extra_info: None,
            response_text: None,
            response_info: None,
            response_error: None,
            response_errno: None,
            multipart_form_data: None,
        };
        proof {
            assert(pairs_view(r.options@) =~= Seq::<(Seq<char>, Seq<char>)>::empty());
        }
        r
    }

    /// Sets the URL for the request.
    pub fn set_url(&mut self, url: &str) -> (r: &mut Self)
        ensures
            (*r)@ == (RequestView { url: url@, ..old(self)@ }),
            *final(self) == *final(r),
    {
        self.url = url.to_string();
        self
    }

    /// Retrieves the URL for the request.
    pub fn get_url(&self) -> (r: &String)
        ensures
            r@ == self@.url,
    {
        &self.url
    }

    /// Sets the HTTP method for the request.
    pub fn set_method(&mut self, method: HttpMethod) -> (r: &mut Self)
        ensures
            (*r)@ == (RequestView { method: method, ..old(self)@ }),
            *final(self) == *final(r),
    {
        self.method = method;
        self
    }

    /// Retrieves the HTTP method for the request.
    pub fn get_method(&self) -> (r: &HttpMethod)
        ensures
            *r == self@.method,
    {
        &self.method
    }

    /// Sets extra information for the request; it is carried through,
    /// untouched, to the outcome of a dispatch.
    pub fn set_extra_info(&mut self, extra_info: &str) -> (r: &mut Self)
        ensures
            (*r)@ == (RequestView { extra_info: Some(extra_info@), ..old(self)@ }),
            *final(self) == *final(r),
    {
        self.extra_info = Some(extra_info.to_string());
        self
    }

    /// Retrieves extra information for the request.
    pub fn get_extra_info(&self) -> (r: Option<&String>)
        ensures
            r is Some <==> self@.extra_info is Some,
            r matches Some(s) ==> self@.extra_info == Some(s@),
    {
        self.extra_info.as_ref()
    }

    /// Sets HTTP headers for the request, stored as given.
    pub fn set_headers(&mut self, headers: Vec<(String, String)>) -> (r: &mut Self)
        ensures
            (*r)@ == (RequestView { headers: Some(pairs_view(headers@)), ..old(self)@ }),
            *final(self) == *final(r),
    {
        self.headers = Some(headers);
        self
    }

    /// Retrieves the HTTP headers for the request.
    pub fn get_headers(&self) -> (r: Option<&Vec<(String, String)>>)
        ensures
            r is Some <==> self@.headers is Some,
            r matches Some(h) ==> self@.headers == Some(pairs_view(h@)),
    {
        self.headers.as_ref()
    }

    /// Sets additional options for the request, replacing any stored before.
    pub fn set_options(&mut self, options: Vec<(String, String)>) -> (r: &mut Self)
        ensures
            (*r)@ == (RequestView { options: pairs_view(options@), ..old(self)@ }),
            *final(self) == *final(r),
    {
        self.options = options;
        self
    }

    /// Adds options to the existing ones with the semantics of a mapping, as
    /// each pair's key demands: a key already stored has its value replaced
    /// (at the key's first occurrence), and a new key is appended.
    pub fn add_options(&mut self, options: Vec<(String, String)>) -> (r: &mut Self)
        ensures
            (*r)@ == (RequestView {
                options: upsert_pairs(old(self)@.options, pairs_view(options@)),
                ..old(self)@
            }),
            *final(self) == *final(r),
    {
        let mut i: usize = 0;
        while i < options.len()
            invariant
                i <= options.len(),
                self@ == (RequestView {
                    options: upsert_pairs(old(self)@.options, pairs_view(options@.take(i as int))),
                    ..old(self)@
                }),
            decreases options.len() - i,
        {
            let p = &options[i];
            self.upsert_option(&p.0, &p.1);
            proof {
                assert(pairs_view(options@.take(i as int + 1)) =~= pairs_view(
                    options@.take(i as int),
                ).push((p.0@, p.1@)));
                lemma_upsert_pairs_push(
                    old(self)@.options,
                    pairs_view(options@.take(i as int)),
                    (p.0@, p.1@),
                );
            }
            i += 1;
        }
        proof {
            assert(options@.take(options@.len() as int) =~= options@);
        }
        self
    }

    /// Stores `value` under `name`: where the key is already present its
    /// first occurrence is replaced, otherwise the pair is appended.
    fn upsert_option(&mut self, name: &String, value: &String)
        ensures
            final(self)@ == (RequestView {
                options: upsert_pair(old(self)@.options, (name@, value@)),
                ..old(self)@
            }),
    {
        let mut j: usize = 0;
        while j < self.options.len()
            invariant
                j <= self.options.len(),
                *self == *old(self),
                forall|m: int| 0 <= m < j ==> old(self)@.options[m].0 != name@,
            decreases self.options.len() - j,
        {
            if self.options[j].0 == *name {
                self.options.set(j, (name.clone(), value.clone()));
                proof {
                    lemma_upsert_pair_found(old(self)@.options, (name@, value@), j as int);
                    assert(pairs_view(self.options@) =~= pairs_view(old(self).options@).update(
                        j as int,
                        (name@, value@),
                    ));
                }
                return ;
            }
            j += 1;
        }
        self.options.push((name.clone(), value.clone()));
        proof {
            lemma_upsert_pair_absent(old(self)@.options, (name@, value@));
            assert(pairs_view(self.options@) =~= pairs_view(old(self).options@).push((
                name@,
                value@,
            )));
        }
    }

    /// Retrieves the options for the request.
    pub fn get_options(&self) -> (r: &Vec<(String, String)>)
        ensures
            pairs_view(r@) == self@.options,
    {
        &self.options
    }

    /// Sets the data sent as the request body, or clears it with `None`.
    pub fn set_post_data(&mut self, post_data: Option<&str>) -> (r: &mut Self)
        ensures
            (*r)@ == (RequestView {
                post_data: match post_data {
                    Some(s) => Some(s@),
                    None => None,
                },
                ..old(self)@
            }),
            *final(self) == *final(r),
    {
        self.post_data = match post_data {
            Some(s) => Some(s.to_string()),
            None => None,
        };
        self
    }

    /// Retrieves the data sent as the request body.
    pub fn get_post_data(&self) -> (r: Option<&String>)
        ensures
            r is Some <==> self@.post_data is Some,
            r matches Some(s) ==> self@.post_data == Some(s@),
    {
        self.post_data.as_ref()
    }

    /// Sets the error number from the response.
    pub fn set_response_errno(&mut self, response_errno: i32) -> (r: &mut Self)
        ensures
            (*r)@ == (RequestView { response_errno: Some(response_errno), ..old(self)@ }),
            *final(self) == *final(r),
    {
        self.response_errno = Some(response_errno);
        self
    }

    /// Retrieves the error number from the response.
    pub fn get_response_errno(&self) -> (r: Option<i32>)
        ensures
            r == self@.response_errno,
    {
        self.response_errno
    }

    /// Sets the error message from the response.
    pub fn set_response_error(&mut self, response_error: &str) -> (r: &mut Self)
        ensures
            (*r)@ == (RequestView { response_error: Some(response_error@), ..old(self)@ }),
            *final(self) == *final(r),
    {
        self.response_error = Some(response_error.to_string());
        self
    }

    /// Retrieves the error message from the response.
    pub fn get_response_error(&self) -> (r: Option<&String>)
        ensures
            r is Some <==> self@.response_error is Some,
            r matches Some(s) ==> self@.response_error == Some(s@),
    {
        self.response_error.as_ref()
    }

    /// Sets additional response information.
    pub fn set_response_info(&mut self, response_info: &str) -> (r: &mut Self)
        ensures
            (*r)@ == (RequestView { response_info: Some(response_info@), ..old(self)@ }),
            *final(self) == *final(r),
    {
        self.response_info = Some(response_info.to_string());
        self
    }

    /// Retrieves additional response information.
    pub fn get_response_info(&self) -> (r: Option<&String>)
        ensures
            r is Some <==> self@.response_info is Some,
            r matches Some(s) ==> self@.response_info == Some(s@),
    {
        self.response_info.as_ref()
    }

    /// Sets the response text from the server.
    pub fn set_response_text(&mut self, response_text: &str) -> (r: &mut Self)
        ensures
            (*r)@ == (RequestView { response_text: Some(response_text@), ..old(self)@ }),
            *final(self) == *final(r),
    {
        self.response_text = Some(response_text.to_string());
        self
    }

    /// Retrieves the response text from the server.
    pub fn get_response_text(&self) -> (r: Option<&String>)
        ensures
            r is Some <==> self@.response_text is Some,
            r matches Some(s) ==> self@.response_text == Some(s@),
    {
        self.response_text.as_ref()
    }

    /// Adds a text field to the multipart form data, creating the form if
    /// none is attached yet.
    pub fn add_form_text(&mut self, name: &str, value: &str) -> (r: &mut Self)
        ensures
            (*r)@ == (RequestView {
                multipart_form_data: Some(
                    form_parts_or_empty(old(self)@.multipart_form_data).push(
                        FormPartView::Text { name: name@, value: value@ },
                    ),
                ),
                ..old(self)@
            }),
            *final(self) == *final(r),
    {
        let part = FormPart::Text { name: name.to_string(), value: value.to_string() };
        self.push_form_part(part);
        self
    }

    /// Adds a file to the multipart form data, creating the form if none is
    /// attached yet. The caller supplies the file's bytes and the name it is
    /// sent under; reading a path from disk is left to the embedding
    /// application.
    pub fn add_form_file(&mut self, name: &str, file_name: &str, bytes: Vec<u8>) -> (r: &mut Self)
        ensures
            (*r)@ == (RequestView {
                multipart_form_data: Some(
                    form_parts_or_empty(old(self)@.multipart_form_data).push(
                        FormPartView::File {
                            name: name@,
                            file_name: file_name@,
                            bytes: bytes@,
                        },
                    ),
                ),
                ..old(self)@
            }),
            *final(self) == *final(r),
    {
        let part = FormPart::File {
            name: name.to_string(),
            file_name: file_name.to_string(),
            bytes,
        };
        self.push_form_part(part);
        self
    }

    /// Appends one part to the attached form, creating the form if absent.
    fn push_form_part(&mut self, part: FormPart)
        ensures
            final(self)@ == (RequestView {
                multipart_form_data: Some(
                    form_parts_or_empty(old(self)@.multipart_form_data).push(part@),
                ),
                ..old(self)@
            }),
    {
        if self.multipart_form_data.is_none() {
            self.multipart_form_data = Some(FormData { parts: Vec::new() });
            proof {
                assert(self.multipart_form_data->0@ =~= Seq::<FormPartView>::empty());
            }
        }
        match &mut self.multipart_form_data {
            Some(f) => {
                f.parts.push(part);
            },
            None => {},
        }
        proof {
            broadcast use vstd::prelude::Seq::lemma_push_map_commute;

        }
    }

    /// Sets the multipart form data for the request, replacing any attached
    /// before.
    pub fn set_multipart_form_data(&mut self, form_data: FormData) -> (r: &mut Self)
        ensures
            (*r)@ == (RequestView { multipart_form_data: Some(form_data@), ..old(self)@ }),
            *final(self) == *final(r),
    {
        self.multipart_form_data = Some(form_data);
        self
    }

    /// Returns the copy of this descriptor that a dispatch window operates
    /// on. The copy carries every request and response field; the multipart
    /// payload, which is single-use, deliberately stays behind.
    pub fn dispatch_clone(&self) -> (r: Request)
        ensures
            r@ == dispatch_view(self@),
    {
        Request {
            url: self.url.clone(),
            method: self.method,
            post_data: clone_opt_string(&self.post_data),
            headers: match &self.headers {
                Some(h) => Some(clone_pairs(h)),
                None => None,
            },
            options: clone_pairs(&self.options),
            extra_info: clone_opt_string(&self.extra_info),
            response_text: clone_opt_string(&self.response_text),
            response_info: clone_opt_string(&self.response_info),
            response_error: clone_opt_string(&self.response_error),
            response_errno: self.response_errno,
            multipart_form_data: None,
        }
    }
}

} // verus!

use vstd::prelude::*;
use vstd::string::StrSliceExecFns;
use vstd::string::StringExecFns;

use crate::model::RawEntry;
use crate::model::build_index;
use crate::model::lemma_built_model_json;
use crate::model::listing_json_model;
use crate::template::Template;
use crate::template::rendered;

verus! {

/// The failures a request can end in. None of them carries anything a
/// client may see beyond its kind: paths, I/O causes and template
/// diagnostics stay in the server-side fields.
#[derive(Debug)]
pub enum YadexError {
    /// The requested directory does not exist or could not be opened.
    NotFound,
    /// The named template failed to render; the cause is for the log only.
    Render { template: String, message: String },
    /// Any other internal failure; the message is for the log only.
    Whatever { message: String },
}

/// One HTTP response, as plain values: the status code, the body, and the
/// redirect target when the status calls for one. A status of 200 carries a
/// rendered HTML page. `diagnostic` is the full failure cause, meant for the
/// server-side log alone and never for the client.
pub struct Reply {
    pub status: u16,
    pub body: String,
    pub location: Option<String>,
    pub diagnostic: Option<String>,
}

impl YadexError {
    /// The fixed, non-leaking response for each failure: 404 with the fixed
    /// body for a missing resource, 500 with the generic body for everything
    /// else. No variant's detail reaches the client; the cause goes into the
    /// server-side diagnostic, and a missing resource needs none.
    pub fn into_response(&self) -> (r: Reply)
        ensures
            self is NotFound ==> r.status == 404 && r.body@ == "404 Not Found"@,
            !(self is NotFound) ==> r.status == 500 && r.body@ == "Internal Server Error"@,
            r.location is None,
            self is NotFound ==> r.diagnostic is None,
            self matches YadexError::Render { message, .. } ==> (r.diagnostic matches Some(d)
                && d@ == message@),
            self matches YadexError::Whatever { message } ==> (r.diagnostic matches Some(d) && d@
                == message@),
    {
        match self {
            YadexError::NotFound => Reply {
                status: 404,
                body: "404 Not Found".to_owned(),
                location: None,
                diagnostic: None,
            },
            YadexError::Render { template: _, message } => Reply {
                status: 500,
                body: "Internal Server Error".to_owned(),
                location: None,
                diagnostic: Some(message.clone()),
            },
            YadexError::Whatever { message } => Reply {
                status: 500,
                body: "Internal Server Error".to_owned(),
                location: None,
                diagnostic: Some(message.clone()),
            },
        }
    }
}

/// The pre-filesystem normalisation: a request path that does not end in
/// `/` gets the same path with `/` appended as its permanent-redirect
/// target, before any directory is touched; a path that already does gets
/// nothing and is listed.
pub fn redirect_target(path: &str) -> (r: Option<String>)
    ensures
        (r is None) == (path@.len() > 0 && path@.last() == '/'),
        r matches Some(t) ==> t@ == path@ + seq!['/'],
{
    let n = path.unicode_len();
    if n > 0 && path.get_char(n - 1) == '/' {
        None
    } else {
        let mut t = path.to_owned();
        t.append("/");
        proof {
            reveal_strlit("/");
            assert("/"@ =~= seq!['/']);
        }
        Some(t)
    }
}

/// The permanent redirect itself: status 301, the Location given, an empty
/// body.
pub fn redirect_reply(location: String) -> (r: Reply)
    ensures
        r.status == 301,
        r.body@ == Seq::<char>::empty(),
        r.location matches Some(l) && l@ == location@,
        r.diagnostic is None,
{
    Reply { status: 301, body: String::new(), location: Some(location), diagnostic: None }
}

/// What each render outcome owes the client: the rendered page as a 200 on
/// success, and otherwise the failure's fixed response with nothing of the
/// cause in it.
pub fn reply_for_render(res: Result<String, YadexError>) -> (r: Reply)
    requires
        res matches Err(e) ==> !(e is NotFound),
    ensures
        res matches Ok(html) ==> r.status == 200 && r.body@ == html@ && r.location is None
            && r.diagnostic is None,
        res is Err ==> r.status == 500 && r.body@ == "Internal Server Error"@ && r.location
            is None,
        res matches Err(e) ==> (e matches YadexError::Render { message, .. }
            ==> (r.diagnostic matches Some(d) && d@ == message@)),
        res matches Err(e) ==> (e matches YadexError::Whatever { message }
            ==> (r.diagnostic matches Some(d) && d@ == message@)),
{
    match res {
        Ok(html) => Reply { status: 200, body: html, location: None, diagnostic: None },
        Err(e) => e.into_response(),
    }
}

/// What the directory lookup found: nothing listable, or the raw results of
/// enumerating it, one slot per yielded entry, with `None` where the entry's
/// metadata could not be read.
pub enum DirLookup {
    Missing,
    Listed(Vec<Option<RawEntry>>),
}

/// One whole listing request after path normalisation. A missing or
/// unreadable directory is exactly the fixed 404 and leaks nothing. A
/// listed one is rendered from the listing's own JSON tree — every readable
/// entry among the first `limit` raw results, in order, with the truncation
/// flag — and answered 200 with exactly that render's text when the engine
/// succeeds, else with the fixed 500; a failed entry slot never fails the
/// request.
pub fn listing_reply(path: &str, lookup: DirLookup, limit: usize, template: &Template) -> (r:
    Reply)
    ensures
        lookup is Missing ==> r.status == 404 && r.body@ == "404 Not Found"@ && r.location
            is None && r.diagnostic is None,
        lookup is Listed ==> (r.status == 200 || r.status == 500) && r.location is None,
        lookup matches DirLookup::Listed(raw) ==> ((r.status == 200) == (rendered(
            template.templates(),
            "index"@,
            listing_json_model(path@, raw@, limit as int),
        ) is Some)),
        lookup matches DirLookup::Listed(raw) ==> (r.status == 200 ==> rendered(
            template.templates(),
            "index"@,
            listing_json_model(path@, raw@, limit as int),
        ) == Some(r.body@)),
        lookup is Listed && r.status == 500 ==> r.body@ == "Internal Server Error"@,
        r.status == 200 ==> r.diagnostic is None,
{
    match lookup {
        DirLookup::Missing => YadexError::NotFound.into_response(),
        DirLookup::Listed(raw) => {
            let data = build_index(path, &raw, limit);
            proof {
                lemma_built_model_json(data, path@, raw@, limit);
            }
            reply_for_render(template.render_index(&data))
        },
    }
}

} // verus!

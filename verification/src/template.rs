use vstd::prelude::*;

use crate::json::JsonModel;
use crate::json::json_array;
use crate::json::json_bool;
use crate::json::json_map_insert;
use crate::json::json_map_model;
use crate::json::json_map_new;
use crate::json::json_null;
use crate::json::json_object;
use crate::json::json_string;
use crate::json::json_u64;
use crate::json::value_model;
use crate::model::DirEntryInfo;
use crate::model::IndexData;
use crate::model::entry_row_model;
use crate::model::index_json_model;
use crate::response::YadexError;

verus! {

/// The template registry of the handlebars crate, held opaquely.
#[verifier::external_type_specification]
#[verifier::external_body]
pub struct ExHandlebars<'reg>(handlebars::Handlebars<'reg>);

/// The handlebars compile diagnostic, held opaquely and only reworded.
#[verifier::external_type_specification]
#[verifier::external_body]
pub struct ExTemplateError(handlebars::TemplateError);

/// The handlebars render diagnostic, held opaquely and only reworded.
#[verifier::external_type_specification]
#[verifier::external_body]
pub struct ExRenderError(handlebars::RenderError);

/// What a registry holds: each registered template's source text, under the
/// name it was registered with.
pub uninterp spec fn templates_of(h: handlebars::Handlebars<'static>) -> Map<Seq<char>, Seq<char>>;

/// Whether handlebars compiles this source under this name: compilation
/// reads the source text alone, so its outcome is a function of the two.
pub uninterp spec fn compiles(name: Seq<char>, source: Seq<char>) -> bool;

/// What rendering a named template of a registry against a JSON tree
/// yields: the text when it succeeds, nothing when it fails. With the
/// engine's fixed built-ins, the outcome is a function of the registered
/// sources, the name and the data alone.
pub uninterp spec fn rendered(
    templates: Map<Seq<char>, Seq<char>>,
    name: Seq<char>,
    data: JsonModel,
) -> Option<Seq<char>>;

/// Relies on handlebars::Handlebars::new: a fresh registry holds no
/// templates.
#[verifier::external_body]
fn hb_new() -> (r: handlebars::Handlebars<'static>)
    ensures
        templates_of(r) =~= Map::empty(),
{
    handlebars::Handlebars::new()
}

/// Relies on handlebars::Handlebars::register_template_string: it succeeds
/// exactly when the source compiles; then the compiled template is stored
/// under the name. On a syntax error it reports the compile diagnostic and
/// the registry is left as it was.
#[verifier::external_body]
fn hb_register(h: &mut handlebars::Handlebars<'static>, name: &str, source: &str) -> (r: Result<
    (),
    handlebars::TemplateError,
>)
    ensures
        (r is Ok) == compiles(name@, source@),
        r is Ok ==> templates_of(*final(h)) == templates_of(*old(h)).insert(name@, source@),
        r is Err ==> templates_of(*final(h)) == templates_of(*old(h)),
{
    h.register_template_string(name, source)
}

/// Relies on handlebars::Handlebars::render: it succeeds exactly when the
/// named template of this registry renders against this data, and then
/// returns that render's text; a name with no registered template fails.
#[verifier::external_body]
fn hb_render(
    h: &handlebars::Handlebars<'static>,
    name: &str,
    data: &serde_json::Value,
) -> (r: Result<String, handlebars::RenderError>)
    ensures
        (r is Ok) == (rendered(templates_of(*h), name@, value_model(*data)) is Some),
        r matches Ok(s) ==> rendered(templates_of(*h), name@, value_model(*data)) == Some(s@),
        !templates_of(*h).dom().contains(name@) ==> r is Err,
{
    h.render(name, data)
}

/// Relies on handlebars::TemplateError's Display form for a diagnostic.
#[verifier::external_body]
fn template_error_message(e: &handlebars::TemplateError) -> String {
    format!("{e}")
}

/// Relies on handlebars::RenderError's Display form for a diagnostic.
#[verifier::external_body]
fn render_error_message(e: &handlebars::RenderError) -> String {
    format!("{e}")
}

/// Why the template store could not be built: a named source file could not
/// be read, or a named template did not compile. Either is fatal at startup.
#[derive(Debug)]
pub enum TemplateLoadError {
    Io { component: String, path: String, message: String },
    Register { component: String, message: String },
}

/// The compiled template store: an immutable registry holding the "index"
/// and "error" templates, shared read-only by every request.
pub struct Template {
    registry: handlebars::Handlebars<'static>,
}

/// The render model as the template engine sees it: an `entry` list of
/// rows, each with `name`, `is_dir`, `size`, `href` and a `datetime` that is
/// null when the modification time was unrepresentable, and the
/// `maybe_truncated` flag beside the list — exactly the model's JSON tree.
fn index_to_json(data: &IndexData) -> (r: serde_json::Value)
    ensures
        value_model(r) == index_json_model(*data),
{
    let mut rows: Vec<serde_json::Value> = Vec::new();
    let mut i: usize = 0;
    while i < data.entry.len()
        invariant
            i <= data.entry@.len(),
            rows@.len() == i,
            forall|j: int|
                0 <= j < i ==> value_model(#[trigger] rows@[j]) == entry_row_model(
                    data.entry@[j],
                ),
        decreases data.entry@.len() - i,
    {
        let e = &data.entry[i];
        let mut row = json_map_new();
        json_map_insert(&mut row, "name", json_string(e.name.clone()));
        json_map_insert(&mut row, "is_dir", json_bool(e.is_dir));
        json_map_insert(&mut row, "size", json_u64(e.size));
        json_map_insert(&mut row, "href", json_string(e.href.clone()));
        let datetime = match &e.datetime {
            Some(s) => json_string(s.clone()),
            None => json_null(),
        };
        json_map_insert(&mut row, "datetime", datetime);
        let obj = json_object(row);
        proof {
            assert(value_model(obj) == entry_row_model(data.entry@[i as int]));
        }
        rows.push(obj);
        i += 1;
    }
    let ghost rows_view = rows@;
    let mut top = json_map_new();
    json_map_insert(&mut top, "entry", json_array(rows));
    json_map_insert(&mut top, "maybe_truncated", json_bool(data.maybe_truncated));
    let r = json_object(top);
    proof {
        assert(rows_view.map_values(|v: serde_json::Value| value_model(v)) =~= data.entry@
            .map_values(|v: DirEntryInfo| entry_row_model(v)));
        assert(value_model(r) == index_json_model(*data));
    }
    r
}

impl Template {
    /// The stored templates: name to source text.
    pub closed spec fn templates(&self) -> Map<Seq<char>, Seq<char>> {
        templates_of(self.registry)
    }

    /// Compiles the two given template sources and registers them as
    /// "index" and "error". Succeeds exactly when both compile; otherwise
    /// it names the component that failed first, the "index" one before the
    /// "error" one, and the service must not start. The "error" template is
    /// compiled and validated here though the listing path never renders
    /// it: it is reserved for an explicit error page.
    pub fn from_sources(index_source: &str, error_source: &str) -> (r: Result<
        Template,
        TemplateLoadError,
    >)
        ensures
            (r is Ok) == (compiles("index"@, index_source@) && compiles("error"@, error_source@)),
            r matches Ok(t) ==> t.templates() == Map::<Seq<char>, Seq<char>>::empty().insert(
                "index"@,
                index_source@,
            ).insert("error"@, error_source@),
            r matches Err(e) ==> (e matches TemplateLoadError::Register { component, .. } && ((
            component@ == "index"@ && !compiles("index"@, index_source@)) || (component@
                == "error"@ && compiles("index"@, index_source@) && !compiles(
                "error"@,
                error_source@,
            )))),
    {
        let mut registry = hb_new();
        match hb_register(&mut registry, "index", index_source) {
            Ok(_) => {},
            Err(e) => {
                return Err(
                    TemplateLoadError::Register {
                        component: "index".to_owned(),
                        message: template_error_message(&e),
                    },
                );
            },
        }
        match hb_register(&mut registry, "error", error_source) {
            Ok(_) => {},
            Err(e) => {
                return Err(
                    TemplateLoadError::Register {
                        component: "error".to_owned(),
                        message: template_error_message(&e),
                    },
                );
            },
        }
        Ok(Template { registry })
    }

    /// Renders the "index" template with one request's render model: the
    /// model's JSON tree is handed to the engine whole, and the outcome is
    /// the render of the stored template against it — the page exactly when
    /// that render succeeds, and otherwise a render failure naming the
    /// template, with the cause kept for the server side.
    pub fn render_index(&self, data: &IndexData) -> (r: Result<String, YadexError>)
        ensures
            (r is Ok) == (rendered(self.templates(), "index"@, index_json_model(*data)) is Some),
            r matches Ok(html) ==> rendered(self.templates(), "index"@, index_json_model(*data))
                == Some(html@),
            r matches Err(e) ==> (e matches YadexError::Render { template, .. } && template@
                == "index"@),
            !self.templates().dom().contains("index"@) ==> r is Err,
    {
        let value = index_to_json(data);
        match hb_render(&self.registry, "index", &value) {
            Ok(html) => Ok(html),
            Err(e) => Err(
                YadexError::Render {
                    template: "index".to_owned(),
                    message: render_error_message(&e),
                },
            ),
        }
    }
}

} // verus!

//! A confined directory-index service library.
//!
//! The library holds the verified request pipeline of a small HTTP
//! directory-listing server: path normalisation, bounded directory-entry
//! modelling, filename escaping for HTML and URLs, template rendering
//! through a compiled template store, and the mapping of failures to
//! fixed, non-leaking HTTP responses.

mod config;
mod escape;
mod json;
mod model;
mod response;
mod template;
mod timefmt;

pub use config::ServiceConfig;
pub use config::TemplateConfig;
pub use config::effective_limit;
pub use escape::attr_escape_char;
pub use escape::attr_escaped;
pub use escape::hex_digit_char;
pub use escape::is_url_output_char;
pub use escape::is_url_safe_char;
pub use escape::lemma_attr_escaped_identity;
pub use escape::lemma_url_encoded_chars;
pub use escape::percent_encoded;
pub use escape::percent_encoded_bytes;
pub use escape::url_encode_char;
pub use escape::url_encoded;
pub use escape::utf8_bytes;
pub use json::JsonModel;
pub use json::json_map_model;
pub use json::value_model;
pub use model::DirEntryInfo;
pub use model::IndexData;
pub use model::RawEntry;
pub use model::bounded;
pub use model::build_entry;
pub use model::build_index;
pub use model::display_name_of;
pub use model::entry_row_model;
pub use model::entry_view_matches;
pub use model::href_of;
pub use model::index_json_model;
pub use model::kept;
pub use model::lemma_bound_and_truncation;
pub use model::lemma_built_model_json;
pub use model::lemma_dir_slash_iff;
pub use model::lemma_href_segment_safe;
pub use model::lemma_skip_is_local;
pub use model::lemma_unbounded_keeps_all;
pub use model::listing_json_model;
pub use model::raw_row_model;
pub use response::DirLookup;
pub use response::Reply;
pub use response::YadexError;
pub use response::listing_reply;
pub use response::redirect_reply;
pub use response::redirect_target;
pub use response::reply_for_render;
pub use template::Template;
pub use template::TemplateLoadError;
pub use template::compiles;
pub use template::rendered;
pub use template::templates_of;
pub use timefmt::MAX_TIMESTAMP_SECS;
pub use timefmt::MIN_TIMESTAMP_SECS;
pub use timefmt::rfc3339_of;
pub use timefmt::timestamp_representable;

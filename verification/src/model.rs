use vstd::prelude::*;

use crate::escape::attr_escape;
use crate::escape::attr_escaped;
use crate::escape::is_url_output_char;
use crate::escape::lemma_attr_escaped_identity;
use crate::escape::lemma_url_encoded_chars;
use crate::escape::url_encode;
use crate::escape::url_encoded;
use crate::json::JsonModel;
use crate::timefmt::rfc3339_of;
use crate::timefmt::rfc3339_utc;
use crate::timefmt::timestamp_representable;

verus! {

/// What one directory entry yields before any rendering decision: the raw
/// filename and the metadata the filesystem reported for it.
pub struct RawEntry {
    pub name: String,
    pub is_dir: bool,
    pub size: u64,
    pub mtime: i64,
}

/// One row of the rendered listing. `name` is the display name (the raw
/// filename, `/`-suffixed for directories); `href` is the link target,
/// percent-encoded and then attribute-escaped; `datetime` is the RFC 3339
/// form of the modification time, absent when it is unrepresentable.
///
/// The display name is deliberately carried raw: text-escaping it is the
/// template engine's duty at render, done by the engine's default escape of
/// an ordinary `{{name}}` interpolation. A template that asks for the raw
/// form (`{{{name}}}`) forgoes that protection; nothing here can prevent it,
/// so the shipped templates must not do so.
pub struct DirEntryInfo {
    pub name: String,
    pub is_dir: bool,
    pub size: u64,
    pub href: String,
    pub datetime: Option<String>,
}

/// The whole render model of one request: the rows in enumeration order and
/// the flag that the listing may have been cut off at the configured bound.
pub struct IndexData {
    pub entry: Vec<DirEntryInfo>,
    pub maybe_truncated: bool,
}

/// The display name: the raw filename, with `/` appended for a directory.
pub open spec fn display_name_of(raw_name: Seq<char>, is_dir: bool) -> Seq<char> {
    if is_dir {
        raw_name + seq!['/']
    } else {
        raw_name
    }
}

/// The link target: the listed directory's request path, then the filename
/// percent-encoded for the URL and attribute-escaped for the HTML around it,
/// then `/` for a directory.
pub open spec fn href_of(dir_path: Seq<char>, raw_name: Seq<char>, is_dir: bool) -> Seq<char> {
    if is_dir {
        dir_path + attr_escaped(url_encoded(raw_name)) + seq!['/']
    } else {
        dir_path + attr_escaped(url_encoded(raw_name))
    }
}

/// A rendered row says of its entry exactly what the model promises: name,
/// kind, size and href as specified, and the date text present exactly when
/// the modification time is representable, and then for that time alone.
pub open spec fn entry_view_matches(v: DirEntryInfo, e: RawEntry, dir_path: Seq<char>) -> bool {
    &&& v.name@ == display_name_of(e.name@, e.is_dir)
    &&& v.is_dir == e.is_dir
    &&& v.size == e.size
    &&& v.href@ == href_of(dir_path, e.name@, e.is_dir)
    &&& (v.datetime is Some) == timestamp_representable(e.mtime)
    &&& (v.datetime matches Some(s) ==> s@ == rfc3339_of(e.mtime))
}

/// The entries that survive enumeration: the readable ones, in order; a slot
/// whose metadata could not be read is dropped and aborts nothing.
pub open spec fn kept(raw: Seq<Option<RawEntry>>) -> Seq<RawEntry>
    decreases raw.len(),
{
    if raw.len() == 0 {
        Seq::empty()
    } else if raw[0] is Some {
        seq![raw[0]->0] + kept(raw.drop_first())
    } else {
        kept(raw.drop_first())
    }
}

/// The raw results a request considers: all of them up to the bound, and
/// never more than the bound.
pub open spec fn bounded(raw: Seq<Option<RawEntry>>, limit: int) -> Seq<Option<RawEntry>> {
    if raw.len() <= limit {
        raw
    } else {
        raw.take(limit)
    }
}

pub proof fn lemma_kept_push(raw: Seq<Option<RawEntry>>, x: Option<RawEntry>)
    ensures
        x is Some ==> kept(raw.push(x)) == kept(raw).push(x->0),
        x is None ==> kept(raw.push(x)) == kept(raw),
    decreases raw.len(),
{
    if raw.len() == 0 {
        let s = raw.push(x);
        assert(s[0] == x);
        assert(s.drop_first() =~= Seq::<Option<RawEntry>>::empty());
        assert(kept(s.drop_first()) =~= Seq::<RawEntry>::empty());
        assert(kept(raw) =~= Seq::<RawEntry>::empty());
        if x is Some {
            assert(kept(s) == seq![x->0] + kept(s.drop_first()));
            assert(kept(s) =~= kept(raw).push(x->0));
        } else {
            assert(kept(s) =~= kept(raw));
        }
    } else {
        lemma_kept_push(raw.drop_first(), x);
        assert(raw.push(x).drop_first() =~= raw.drop_first().push(x));
        assert(raw.push(x)[0] == raw[0]);
        if x is Some {
            if raw[0] is Some {
                assert(kept(raw.push(x)) == seq![raw[0]->0] + kept(raw.drop_first()).push(x->0));
                assert(seq![raw[0]->0] + kept(raw.drop_first()).push(x->0) =~= (seq![raw[0]->0]
                    + kept(raw.drop_first())).push(x->0));
            }
        }
    }
}

pub proof fn lemma_kept_concat(a: Seq<Option<RawEntry>>, b: Seq<Option<RawEntry>>)
    ensures
        kept(a + b) == kept(a) + kept(b),
    decreases b.len(),
{
    if b.len() == 0 {
        assert(a + b =~= a);
        assert(kept(a) + kept(b) =~= kept(a));
    } else {
        lemma_kept_concat(a, b.drop_last());
        lemma_kept_push(a + b.drop_last(), b.last());
        lemma_kept_push(b.drop_last(), b.last());
        assert((a + b.drop_last()).push(b.last()) =~= a + b);
        assert(b.drop_last().push(b.last()) =~= b);
        if b.last() is Some {
            assert(kept(a + b) == (kept(a) + kept(b.drop_last())).push(b.last()->0));
            assert((kept(a) + kept(b.drop_last())).push(b.last()->0) =~= kept(a) + kept(
                b.drop_last(),
            ).push(b.last()->0));
        }
    }
}

pub proof fn lemma_kept_len_le(raw: Seq<Option<RawEntry>>)
    ensures
        kept(raw).len() <= raw.len(),
    decreases raw.len(),
{
    if raw.len() > 0 {
        lemma_kept_len_le(raw.drop_first());
    }
}

pub proof fn lemma_kept_all_some(raw: Seq<Option<RawEntry>>)
    requires
        forall|i: int| 0 <= i < raw.len() ==> raw[i] is Some,
    ensures
        kept(raw).len() == raw.len(),
        forall|i: int| 0 <= i < raw.len() ==> kept(raw)[i] == raw[i]->0,
    decreases raw.len(),
{
    if raw.len() > 0 {
        assert(forall|i: int|
            0 <= i < raw.drop_first().len() ==> raw.drop_first()[i] == raw[i + 1]);
        lemma_kept_all_some(raw.drop_first());
    }
}

/// One model row, built from one readable entry.
pub fn build_entry(dir_path: &str, e: &RawEntry) -> (r: DirEntryInfo)
    ensures
        entry_view_matches(r, *e, dir_path@),
{
    let encoded = url_encode(e.name.as_str());
    let escaped = attr_escape(encoded.as_str());
    let mut href = dir_path.to_owned();
    href.append(escaped.as_str());
    let mut name = e.name.clone();
    if e.is_dir {
        href.append("/");
        name.append("/");
        proof {
            reveal_strlit("/");
            assert("/"@ =~= seq!['/']);
        }
    }
    proof {
        assert(href@ =~= href_of(dir_path@, e.name@, e.is_dir));
        assert(name@ =~= display_name_of(e.name@, e.is_dir));
    }
    let datetime = rfc3339_utc(e.mtime);
    DirEntryInfo { name, is_dir: e.is_dir, size: e.size, href, datetime }
}

/// The render model of one request: every readable entry among the first
/// `limit` raw results, in enumeration order, and the truncation flag set
/// exactly when as many rows came back as the bound allows.
pub fn build_index(dir_path: &str, raw: &Vec<Option<RawEntry>>, limit: usize) -> (r: IndexData)
    ensures
        r.entry@.len() == kept(bounded(raw@, limit as int)).len(),
        r.entry@.len() <= limit,
        forall|i: int|
            0 <= i < r.entry@.len() ==> entry_view_matches(
                #[trigger] r.entry@[i],
                kept(bounded(raw@, limit as int))[i],
                dir_path@,
            ),
        r.maybe_truncated == (r.entry@.len() == limit),
{
    let mut entries: Vec<DirEntryInfo> = Vec::new();
    let mut i: usize = 0;
    let n = raw.len();
    while i < n && i < limit
        invariant
            i <= n,
            i <= limit,
            n == raw@.len(),
            entries@.len() == kept(raw@.take(i as int)).len(),
            forall|j: int|
                0 <= j < entries@.len() ==> entry_view_matches(
                    #[trigger] entries@[j],
                    kept(raw@.take(i as int))[j],
                    dir_path@,
                ),
        decreases n - i,
    {
        proof {
            assert(raw@.take((i + 1) as int) =~= raw@.take(i as int).push(raw@[i as int]));
            lemma_kept_push(raw@.take(i as int), raw@[i as int]);
        }
        match &raw[i] {
            Some(e) => {
                let row = build_entry(dir_path, e);
                entries.push(row);
            },
            None => {},
        }
        i += 1;
    }
    proof {
        assert(raw@.take(i as int) =~= bounded(raw@, limit as int));
        lemma_kept_len_le(raw@.take(i as int));
    }
    let truncated = entries.len() == limit;
    IndexData { entry: entries, maybe_truncated: truncated }
}

/// For a listing whose raw results are all readable: below the bound every
/// entry is kept, so the truncation flag stays off; at or above the bound
/// exactly the bound many are kept, so the flag is raised. (A directory
/// holding exactly as many entries as the bound raises the flag too: from
/// the model alone nothing tells that enumeration was not cut short there.)
pub proof fn lemma_bound_and_truncation(raw: Seq<Option<RawEntry>>, limit: usize)
    requires
        forall|i: int| 0 <= i < raw.len() ==> raw[i] is Some,
    ensures
        raw.len() < limit ==> kept(bounded(raw, limit as int)).len() == raw.len(),
        raw.len() >= limit ==> kept(bounded(raw, limit as int)).len() == limit,
{
    if raw.len() <= limit {
        lemma_kept_all_some(raw);
    } else {
        assert(forall|i: int|
            0 <= i < raw.take(limit as int).len() ==> raw.take(limit as int)[i] is Some);
        lemma_kept_all_some(raw.take(limit as int));
    }
}

/// With the unbounded setting every readable entry is kept and, short of the
/// absolute count ceiling a vector can reach, the flag stays off.
pub proof fn lemma_unbounded_keeps_all(raw: Seq<Option<RawEntry>>)
    requires
        forall|i: int| 0 <= i < raw.len() ==> raw[i] is Some,
        raw.len() < usize::MAX,
    ensures
        kept(bounded(raw, usize::MAX as int)).len() == raw.len(),
        kept(bounded(raw, usize::MAX as int)).len() != usize::MAX,
{
    lemma_bound_and_truncation(raw, usize::MAX);
}

/// One failed metadata read changes nothing but the absence of its own row:
/// the kept entries are exactly those of the same enumeration with the
/// failed slot left out.
pub proof fn lemma_skip_is_local(a: Seq<Option<RawEntry>>, b: Seq<Option<RawEntry>>)
    ensures
        kept(a + seq![Option::<RawEntry>::None] + b) == kept(a + b),
{
    lemma_kept_concat(a + seq![Option::<RawEntry>::None], b);
    lemma_kept_concat(a, seq![Option::<RawEntry>::None]);
    lemma_kept_concat(a, b);
    let none_seq = seq![Option::<RawEntry>::None];
    assert(none_seq[0] is None);
    assert(none_seq.drop_first() =~= Seq::<Option<RawEntry>>::empty());
    assert(kept(none_seq.drop_first()) =~= Seq::<RawEntry>::empty());
    assert(kept(none_seq) =~= Seq::<RawEntry>::empty());
    assert(kept(a) + kept(none_seq) =~= kept(a));
}

/// However hostile a filename, its href segment reaches the attribute
/// position with no raw `<`, `>`, `&`, `"`, space or single quote in it:
/// percent-encoding leaves only unreserved characters and `%`, and
/// attribute-escaping keeps those as they are.
pub proof fn lemma_href_segment_safe(raw_name: Seq<char>)
    ensures
        attr_escaped(url_encoded(raw_name)) == url_encoded(raw_name),
        forall|i: int|
            0 <= i < attr_escaped(url_encoded(raw_name)).len() ==> !(#[trigger] attr_escaped(
                url_encoded(raw_name),
            )[i] == '<' || attr_escaped(url_encoded(raw_name))[i] == '>' || attr_escaped(
                url_encoded(raw_name),
            )[i] == '&' || attr_escaped(url_encoded(raw_name))[i] == '"' || attr_escaped(
                url_encoded(raw_name),
            )[i] == ' ' || attr_escaped(url_encoded(raw_name))[i] == '\''),
{
    lemma_url_encoded_chars(raw_name);
    lemma_attr_escaped_identity(url_encoded(raw_name));
}

/// The JSON tree of one rendered row, over the row's own fields.
pub open spec fn entry_row_model(v: DirEntryInfo) -> JsonModel {
    JsonModel::Obj(
        Map::<Seq<char>, JsonModel>::empty().insert("name"@, JsonModel::Str(v.name@)).insert(
            "is_dir"@,
            JsonModel::Bool(v.is_dir),
        ).insert("size"@, JsonModel::UInt(v.size)).insert("href"@, JsonModel::Str(v.href@)).insert(
            "datetime"@,
            match v.datetime {
                Some(s) => JsonModel::Str(s@),
                None => JsonModel::Null,
            },
        ),
    )
}

/// The JSON tree of a whole render model: the rows in order under `entry`,
/// the truncation flag beside them.
pub open spec fn index_json_model(d: IndexData) -> JsonModel {
    JsonModel::Obj(
        Map::<Seq<char>, JsonModel>::empty().insert(
            "entry"@,
            JsonModel::Arr(d.entry@.map_values(|v: DirEntryInfo| entry_row_model(v))),
        ).insert("maybe_truncated"@, JsonModel::Bool(d.maybe_truncated)),
    )
}

/// The JSON tree one readable raw entry must become, straight from the raw
/// name and metadata.
pub open spec fn raw_row_model(dir_path: Seq<char>, e: RawEntry) -> JsonModel {
    JsonModel::Obj(
        Map::<Seq<char>, JsonModel>::empty().insert(
            "name"@,
            JsonModel::Str(display_name_of(e.name@, e.is_dir)),
        ).insert("is_dir"@, JsonModel::Bool(e.is_dir)).insert(
            "size"@,
            JsonModel::UInt(e.size),
        ).insert("href"@, JsonModel::Str(href_of(dir_path, e.name@, e.is_dir))).insert(
            "datetime"@,
            if timestamp_representable(e.mtime) {
                JsonModel::Str(rfc3339_of(e.mtime))
            } else {
                JsonModel::Null
            },
        ),
    )
}

/// The JSON tree a whole listing request must hand the template engine,
/// straight from the raw enumeration results and the bound.
pub open spec fn listing_json_model(
    dir_path: Seq<char>,
    raw: Seq<Option<RawEntry>>,
    limit: int,
) -> JsonModel {
    JsonModel::Obj(
        Map::<Seq<char>, JsonModel>::empty().insert(
            "entry"@,
            JsonModel::Arr(
                kept(bounded(raw, limit)).map_values(|e: RawEntry| raw_row_model(dir_path, e)),
            ),
        ).insert(
            "maybe_truncated"@,
            JsonModel::Bool(kept(bounded(raw, limit)).len() == limit),
        ),
    )
}

/// The JSON tree of the model that `build_index` returns is exactly the
/// listing's own tree: nothing is lost or reshaped on the way to the engine.
pub proof fn lemma_built_model_json(
    data: IndexData,
    dir_path: Seq<char>,
    raw: Seq<Option<RawEntry>>,
    limit: usize,
)
    requires
        data.entry@.len() == kept(bounded(raw, limit as int)).len(),
        forall|i: int|
            0 <= i < data.entry@.len() ==> entry_view_matches(
                #[trigger] data.entry@[i],
                kept(bounded(raw, limit as int))[i],
                dir_path,
            ),
        data.maybe_truncated == (data.entry@.len() == limit),
    ensures
        index_json_model(data) == listing_json_model(dir_path, raw, limit as int),
{
    let ks = kept(bounded(raw, limit as int));
    assert forall|i: int| 0 <= i < data.entry@.len() implies entry_row_model(data.entry@[i])
        == raw_row_model(dir_path, ks[i]) by {
        assert(entry_view_matches(data.entry@[i], ks[i], dir_path));
    }
    assert(data.entry@.map_values(|v: DirEntryInfo| entry_row_model(v)) =~= ks.map_values(
        |e: RawEntry| raw_row_model(dir_path, e),
    ));
}

/// A row carries the trailing `/` on its display name and on its href
/// exactly when the entry is a directory. (A filename is nonempty and holds
/// no `/` of its own, which the filesystem guarantees.)
pub proof fn lemma_dir_slash_iff(dir_path: Seq<char>, e: RawEntry)
    requires
        e.name@.len() > 0,
        forall|i: int| 0 <= i < e.name@.len() ==> e.name@[i] != '/',
    ensures
        display_name_of(e.name@, e.is_dir).len() > 0,
        href_of(dir_path, e.name@, e.is_dir).len() > 0,
        (display_name_of(e.name@, e.is_dir).last() == '/') == e.is_dir,
        (href_of(dir_path, e.name@, e.is_dir).last() == '/') == e.is_dir,
{
    lemma_url_encoded_chars(e.name@);
    lemma_href_segment_safe(e.name@);
    let seg = attr_escaped(url_encoded(e.name@));
    if !e.is_dir {
        assert(display_name_of(e.name@, e.is_dir).last() == e.name@.last());
        assert(e.name@.last() != '/');
        assert(seg.len() >= 1);
        assert(href_of(dir_path, e.name@, e.is_dir).last() == seg.last());
        assert(is_url_output_char(seg.last())) by {
            assert(seg == url_encoded(e.name@));
        }
        assert(seg.last() != '/');
    }
}

} // verus!

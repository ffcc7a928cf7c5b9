//! Reading and editing the cells of a notebook document.
use vstd::prelude::*;
use vstd::string::*;
use crate::client::{DefinitionBody, DefinitionPart, ItemDefinition};
use crate::encoding::{b64_encode, base64_decode, law_base64_encoding_injective};
use crate::json::{
    as_array_spec, as_str_spec, get_spec, is_settable, items_view, law_get_after_set, lemma_key_pos_is,
    law_set_current_value_is_identity, law_set_twice, lookup_spec, set_spec, Json, JsonView,
};
use crate::json_ops::{no_items, no_members, object, push_item, push_member};
use crate::text::{
    contains, contains_spec, decimal, ends_with, ends_with_spec, find_from, lemma_find_from_bounds,
    lines, lines_spec, prefix_at_most, prefix_len, strip_cr, u64_to_string,
};

verus! {

broadcast use crate::json::group_json_view;

/// Errors that the cell commands raise.
pub enum CellsError {
    /// The item definition has no body.
    NoDefinition,
    /// The definition has no parts.
    NoParts,
    /// The selected part's payload is not Base64.
    BadPayload,
    /// The document has no `cells` array.
    NoCells,
    /// No cell at `index`; there are `len`.
    IndexOutOfRange { index: usize, len: usize },
    /// Cannot insert at `pos`; there are `len` cells.
    InsertOutOfRange { pos: usize, len: usize },
}

impl CellsError {
    /// The message shown for this error.
    pub fn message(&self) -> (r: String)
        ensures
            match self {
                CellsError::NoDefinition => r@ == "No definition returned"@,
                CellsError::NoParts => r@ == "No parts in definition"@,
                CellsError::BadPayload => r@ == "Failed to decode base64 payload"@,
                CellsError::NoCells => r@ == "No cells array in notebook"@,
                CellsError::IndexOutOfRange { index, len } => r@ == "Cell index "@ + decimal(
                    *index as nat,
                ) + " out of range (0.."@ + decimal(*len as nat) + ")"@,
                CellsError::InsertOutOfRange { pos, len } => r@ == "Insert position "@
                    + decimal(*pos as nat) + " out of range (0.."@ + decimal(*len as nat)
                    + ")"@,
            },
    {
        match self {
            CellsError::NoDefinition => String::from_str("No definition returned"),
            CellsError::NoParts => String::from_str("No parts in definition"),
            CellsError::BadPayload => String::from_str("Failed to decode base64 payload"),
            CellsError::NoCells => String::from_str("No cells array in notebook"),
            CellsError::IndexOutOfRange { index, len } => {
                range_message("Cell index ", *index, *len)
            },
            CellsError::InsertOutOfRange { pos, len } => {
                range_message("Insert position ", *pos, *len)
            },
        }
    }
}

/// "`prefix``at` out of range (0..`len`)".
fn range_message(prefix: &str, at: usize, len: usize) -> (r: String)
    ensures
        r@ == prefix@ + decimal(at as nat) + " out of range (0.."@ + decimal(len as nat) + ")"@,
{
    let mut m = String::from_str(prefix);
    m.append(u64_to_string(at as u64).as_str());
    m.append(" out of range (0..");
    m.append(u64_to_string(len as u64).as_str());
    m.append(")");
    m
}

// ---------------------------------------------------------------------------
// The notebook part of a definition
// ---------------------------------------------------------------------------

/// The part that holds the notebook: its path contains "notebook-content" or ends
/// with ".ipynb".
pub open spec fn is_notebook_path(path: Seq<char>) -> bool {
    contains_spec(path, "notebook-content"@) || ends_with_spec(path, ".ipynb"@)
}

/// Index of the first notebook part at or after `i`, or `parts.len()`.
pub open spec fn notebook_part_from(parts: Seq<DefinitionPart>, i: int) -> int
    decreases parts.len() - i,
{
    if i < 0 || i >= parts.len() {
        parts.len() as int
    } else if is_notebook_path(parts[i].path@) {
        i
    } else {
        notebook_part_from(parts, i + 1)
    }
}

/// Index of the part a notebook is read from: the first notebook part, else the
/// first part; `None` when there are no parts.
pub open spec fn selected_part_spec(parts: Seq<DefinitionPart>) -> Option<int> {
    let k = notebook_part_from(parts, 0);
    if k < parts.len() {
        Some(k)
    } else if parts.len() > 0 {
        Some(0)
    } else {
        None
    }
}

/// Selects the part a notebook is read from.
pub fn select_part(parts: &Vec<DefinitionPart>) -> (r: Option<&DefinitionPart>)
    ensures
        match selected_part_spec(parts@) {
            Some(k) => r == Some(&parts@[k]),
            None => r is None,
        },
{
    let n = parts.len();
    let mut i: usize = 0;
    while i < n
        invariant
            n == parts@.len(),
            i <= n,
            notebook_part_from(parts@, 0) == notebook_part_from(parts@, i as int),
        decreases n - i,
    {
        let p = parts[i].path.as_str();
        if contains(p, "notebook-content") || ends_with(p, ".ipynb") {
            return Some(&parts[i]);
        }
        i = i + 1;
    }
    if n > 0 {
        Some(&parts[0])
    } else {
        None
    }
}

/// The payload a definition's notebook is read from, if any.
pub open spec fn notebook_payload_spec(def: ItemDefinition) -> Option<Seq<char>> {
    match def.definition {
        Some(body) => match selected_part_spec(body.parts@) {
            Some(k) => Some(body.parts@[k].payload@),
            None => None,
        },
        None => None,
    }
}

/// The raw bytes of the notebook in an item definition: its selected part's payload,
/// Base64-decoded.
pub fn notebook_bytes(def: &ItemDefinition) -> (r: Result<Vec<u8>, CellsError>)
    ensures
        def.definition is None ==> r matches Err(CellsError::NoDefinition),
        def.definition matches Some(b) && b.parts@.len() == 0 ==> r matches Err(
            CellsError::NoParts,
        ),
        notebook_payload_spec(*def) matches Some(p) ==> {
            &&& r matches Ok(v) ==> b64_encode(v@) == p
            &&& r matches Err(e) ==> e is BadPayload && forall|b: Seq<u8>| b64_encode(b) != p
        },
        forall|b: Seq<u8>|
            notebook_payload_spec(*def) == Some(#[trigger] b64_encode(b)) ==> (r matches Ok(v)
                && v@ == b),
{
    let body: &DefinitionBody = match &def.definition {
        Some(b) => b,
        None => {
            return Err(CellsError::NoDefinition);
        },
    };
    let part = match select_part(&body.parts) {
        Some(p) => p,
        None => {
            return Err(CellsError::NoParts);
        },
    };
    match base64_decode(part.payload.as_str()) {
        Ok(v) => {
            proof {
                assert forall|b: Seq<u8>| notebook_payload_spec(*def) == Some(
                    #[trigger] b64_encode(b),
                ) implies v@ == b by {
                    law_base64_encoding_injective(v@, b);
                }
            }
            Ok(v)
        },
        Err(_) => Err(CellsError::BadPayload),
    }
}

// ---------------------------------------------------------------------------
// Reading cells
// ---------------------------------------------------------------------------

/// The `cells` array of a notebook document.
pub open spec fn cells_spec(doc: JsonView) -> Option<Seq<JsonView>> {
    as_array_spec(get_spec(doc, "cells"@))
}

/// A string member of a value, or a default.
pub open spec fn str_member_or(v: JsonView, key: Seq<char>, default: Seq<char>) -> Seq<char> {
    match as_str_spec(get_spec(v, key)) {
        Some(s) => s,
        None => default,
    }
}

/// The language group recorded in a notebook's metadata, or "jupyter_python".
pub open spec fn language_group_spec(doc: JsonView) -> Seq<char> {
    match as_str_spec(
        lookup_spec(doc, seq!["metadata"@, "microsoft"@, "language_group"@]),
    ) {
        Some(s) => s,
        None => "jupyter_python"@,
    }
}

/// The string items of an array, concatenated (other items are skipped).
pub open spec fn concat_strings(items: Seq<JsonView>) -> Seq<char>
    decreases items.len(),
{
    if items.len() == 0 {
        seq![]
    } else {
        concat_strings(items.drop_last()) + match items.last() {
            JsonView::Str(s) => s,
            _ => seq![],
        }
    }
}

/// The source of a cell as one string: an array of strings is concatenated, a
/// string is taken as it is, anything else is empty.
pub open spec fn cell_source_spec(cell: JsonView) -> Seq<char> {
    match get_spec(cell, "source"@) {
        Some(JsonView::Array(a)) => concat_strings(a),
        Some(JsonView::Str(s)) => s,
        _ => seq![],
    }
}

/// Borrowed string of a value, if it is one.
fn str_of(v: Option<&Json>) -> (r: Option<&str>)
    ensures
        match as_str_spec(crate::json::opt_view(v)) {
            Some(s) => r matches Some(x) && x@ == s,
            None => r is None,
        },
{
    match v {
        Some(j) => j.as_str(),
        None => None,
    }
}

/// Detects the kernel language group from notebook metadata.
pub fn detect_language_group(ipynb: &Json) -> (r: String)
    ensures
        r@ == language_group_spec(ipynb@),
{
    let path = ["metadata", "microsoft", "language_group"];
    let found = ipynb.lookup(&path);
    proof {
        assert(path@.map_values(|k: &str| k@) =~= seq!["metadata"@, "microsoft"@, "language_group"@]);
    }
    match str_of(found) {
        Some(s) => s.to_owned(),
        None => "jupyter_python".to_owned(),
    }
}

/// The type of a cell ("code", "markdown", ...), or "unknown".
pub fn cell_type(cell: &Json) -> (r: String)
    ensures
        r@ == str_member_or(cell@, "cell_type"@, "unknown"@),
{
    match str_of(cell.get("cell_type")) {
        Some(s) => s.to_owned(),
        None => "unknown".to_owned(),
    }
}

/// Extracts the source of a cell as a single string; both the string and the
/// array-of-strings forms are handled.
pub fn cell_source_string(cell: &Json) -> (r: String)
    ensures
        r@ == cell_source_spec(cell@),
{
    match cell.get("source") {
        Some(Json::Array(items)) => {
            let mut out = String::new();
            let mut i: usize = 0;
            while i < items.len()
                invariant
                    i <= items@.len(),
                    out@ == concat_strings(items_view(items@).subrange(0, i as int)),
                decreases items@.len() - i,
            {
                let ghost iv = items_view(items@);
                assert(iv.subrange(0, i + 1).drop_last() =~= iv.subrange(0, i as int));
                assert(iv.subrange(0, i + 1).last() == items@[i as int]@);
                if let Some(s) = items[i].as_str() {
                    out.append(s);
                }
                i = i + 1;
            }
            assert(items_view(items@).subrange(0, items@.len() as int) =~= items_view(items@));
            out
        },
        Some(Json::Str(s)) => s.clone(),
        _ => String::new(),
    }
}

/// The `cells` array of a notebook document.
pub fn cells(ipynb: &Json) -> (r: Result<&Vec<Json>, CellsError>)
    ensures
        match cells_spec(ipynb@) {
            Some(cs) => r matches Ok(v) && items_view(v@) == cs,
            None => r matches Err(CellsError::NoCells),
        },
{
    match ipynb.get("cells") {
        Some(c) => match c.as_array() {
            Some(v) => Ok(v),
            None => Err(CellsError::NoCells),
        },
        None => Err(CellsError::NoCells),
    }
}

/// The cell at `index`.
pub fn cell_at(ipynb: &Json, index: usize) -> (r: Result<&Json, CellsError>)
    ensures
        match cells_spec(ipynb@) {
            Some(cs) => if index < cs.len() {
                r matches Ok(c) && c@ == cs[index as int]
            } else {
                r matches Err(CellsError::IndexOutOfRange { index: i, len }) && i == index && len
                    == cs.len()
            },
            None => r matches Err(CellsError::NoCells),
        },
{
    let cs = cells(ipynb)?;
    if index < cs.len() {
        Ok(&cs[index])
    } else {
        Err(CellsError::IndexOutOfRange { index, len: cs.len() })
    }
}

// ---------------------------------------------------------------------------
// Listing
// ---------------------------------------------------------------------------

/// Longest first line shown before it is cut.
pub const MAX_LINE_BYTES: usize = 80;

/// Bytes kept of a line that is cut.
pub const CUT_LINE_BYTES: usize = 77;

/// A first line as the listing shows it: a line longer than 80 bytes is cut to its
/// longest prefix of at most 77 bytes that ends between characters, and "..." is
/// added.
pub fn truncate_line(line: &str) -> (r: String)
    ensures
        line.spec_bytes().len() <= MAX_LINE_BYTES ==> r@ == line@,
        line.spec_bytes().len() > MAX_LINE_BYTES ==> r@ == vstd::utf8::decode_utf8(
            line.spec_bytes().subrange(0, prefix_len(line.spec_bytes(), CUT_LINE_BYTES as int)),
        ) + "..."@,
{
    let bytes = line.as_bytes();
    if bytes.len() > MAX_LINE_BYTES {
        let kept = prefix_at_most(line, CUT_LINE_BYTES);
        String::from_str(kept).concat("...")
    } else {
        line.to_owned()
    }
}

// ---------------------------------------------------------------------------
// Editing
// ---------------------------------------------------------------------------

/// Source items for lines: each line but the last followed by "\n".
pub open spec fn source_items(ls: Seq<Seq<char>>) -> Seq<JsonView> {
    Seq::new(
        ls.len(),
        |i: int|
            JsonView::Str(
                if i < ls.len() - 1 {
                    ls[i] + "\n"@
                } else {
                    ls[i]
                },
            ),
    )
}

/// The source array of a cell holding `code`: its lines (as `str::lines` gives them),
/// each but the last followed by "\n".
pub open spec fn source_lines_spec(code: Seq<char>) -> Seq<JsonView> {
    source_items(lines_spec(code))
}

/// Splits code into the lines of a cell's source.
pub fn source_lines(code: &str) -> (r: Vec<Json>)
    ensures
        items_view(r@) == source_lines_spec(code@),
{
    let ls = lines(code);
    let ghost lv = lines_spec(code@);
    assert(ls@.map_values(|l: String| l@) == lv);
    let n = ls.len();
    let mut out = no_items();
    let mut i: usize = 0;
    while i < n
        invariant
            n == ls@.len(),
            lv == ls@.map_values(|l: String| l@),
            lv.len() == n,
            i <= n,
            items_view(out@) =~= source_lines_spec(code@).subrange(0, i as int),
            lv == lines_spec(code@),
        decreases n - i,
    {
        assert(lv[i as int] == ls@[i as int]@);
        let line = if i + 1 < n {
            String::from_str(ls[i].as_str()).concat("\n")
        } else {
            ls[i].clone()
        };
        let ghost before = items_view(out@);
        push_item(&mut out, Json::Str(line));
        assert(items_view(out@) =~= source_lines_spec(code@).subrange(0, i + 1));
        i = i + 1;
    }
    out
}

/// A new cell: a markdown cell, or a code cell with empty outputs and no execution
/// count; its metadata records the Python language and the notebook's language group.
pub open spec fn new_cell_spec(code: Seq<char>, markdown: bool, language_group: Seq<char>) -> JsonView {
    let base = seq![
        ("cell_type"@, JsonView::Str(if markdown { "markdown"@ } else { "code"@ })),
    ].push(
        (
            "metadata"@,
            JsonView::Object(
                seq![
                    (
                        "microsoft"@,
                        JsonView::Object(
                            seq![("language"@, JsonView::Str("python"@))].push(
                                ("language_group"@, JsonView::Str(language_group)),
                            ),
                        ),
                    ),
                ],
            ),
        ),
    ).push(("source"@, JsonView::Array(source_lines_spec(code))));
    if markdown {
        JsonView::Object(base)
    } else {
        JsonView::Object(
            base.push(("outputs"@, JsonView::Array(seq![]))).push(
                ("execution_count"@, JsonView::Null),
            ),
        )
    }
}

/// Builds a new cell.
pub fn new_cell(code: &str, markdown: bool, language_group: &str) -> (r: Json)
    ensures
        r@ == new_cell_spec(code@, markdown, language_group@),
{
    let mut ms = no_members();
    push_member(&mut ms, "language", Json::Str("python".to_owned()));
    push_member(&mut ms, "language_group", Json::Str(language_group.to_owned()));
    let mut meta = no_members();
    push_member(&mut meta, "microsoft", object(ms));
    let mut f = no_members();
    push_member(
        &mut f,
        "cell_type",
        Json::Str(
            if markdown {
                "markdown".to_owned()
            } else {
                "code".to_owned()
            },
        ),
    );
    push_member(&mut f, "metadata", object(meta));
    push_member(&mut f, "source", Json::from_vec(source_lines(code)));
    if !markdown {
        push_member(&mut f, "outputs", Json::from_vec(no_items()));
        push_member(&mut f, "execution_count", Json::Null);
    }
    object(f)
}

/// The document with its `cells` array replaced.
pub open spec fn with_cells(doc: JsonView, cs: Seq<JsonView>) -> JsonView {
    set_spec(doc, "cells"@, JsonView::Array(cs))
}

/// A document whose `cells` member exists is an object.
proof fn lemma_has_cells_is_object(doc: JsonView)
    requires
        cells_spec(doc) is Some,
    ensures
        is_settable(doc),
{
}

/// Copies of the cells.
fn copy_cells(cs: &Vec<Json>) -> (r: Vec<Json>)
    ensures
        items_view(r@) == items_view(cs@),
{
    let mut out = no_items();
    let mut i: usize = 0;
    while i < cs.len()
        invariant
            i <= cs@.len(),
            items_view(out@) =~= items_view(cs@).subrange(0, i as int),
        decreases cs@.len() - i,
    {
        push_item(&mut out, cs[i].copy());
        assert(items_view(out@) =~= items_view(cs@).subrange(0, i + 1));
        i = i + 1;
    }
    out
}

/// Replaces the `cells` member of a document that has one.
fn replace_cells(ipynb: &mut Json, cs: Vec<Json>)
    requires
        cells_spec(old(ipynb)@) is Some,
    ensures
        final(ipynb)@ == with_cells(old(ipynb)@, items_view(cs@)),
{
    proof {
        lemma_has_cells_is_object(ipynb@);
    }
    ipynb.set("cells", Json::from_vec(cs));
}

/// Inserts a cell at `at` (at most the number of cells), or appends it when `at` is
/// `None`; returns the index it now has.
pub fn insert_cell(ipynb: &mut Json, cell: Json, at: Option<usize>) -> (r: Result<usize, CellsError>)
    ensures
        match cells_spec(old(ipynb)@) {
            None => r matches Err(CellsError::NoCells) && final(ipynb)@ == old(ipynb)@,
            Some(cs) => match at {
                Some(pos) => if pos > cs.len() {
                    r matches Err(CellsError::InsertOutOfRange { pos: p, len }) && p == pos && len
                        == cs.len() && final(ipynb)@ == old(ipynb)@
                } else {
                    r == Ok::<usize, CellsError>(pos) && final(ipynb)@ == with_cells(
                        old(ipynb)@,
                        cs.insert(pos as int, cell@),
                    )
                },
                None => r == Ok::<usize, CellsError>(cs.len() as usize) && final(ipynb)@
                    == with_cells(old(ipynb)@, cs.push(cell@)),
            },
        },
{
    let mut cs = match cells(ipynb) {
        Ok(v) => copy_cells(v),
        Err(e) => {
            return Err(e);
        },
    };
    let len = cs.len();
    let pos = match at {
        Some(p) => {
            if p > len {
                return Err(CellsError::InsertOutOfRange { pos: p, len });
            }
            p
        },
        None => len,
    };
    let ghost before = items_view(cs@);
    let ghost cv = cell@;
    cs.insert(pos, cell);
    proof {
        assert forall|k: int| 0 <= k < cs@.len() implies items_view(cs@)[k] == before.insert(
            pos as int,
            cv,
        )[k] by {}
        assert(items_view(cs@) =~= before.insert(pos as int, cv));
        assert(before.insert(len as int, cv) =~= before.push(cv));
    }
    replace_cells(ipynb, cs);
    Ok(pos)
}

/// Replaces the source of the cell at `index` with the lines of `code`; returns the
/// cell's type.
pub fn set_cell_source(ipynb: &mut Json, index: usize, code: &str) -> (r: Result<
    String,
    CellsError,
>)
    requires
        match cells_spec(old(ipynb)@) {
            Some(cs) => index < cs.len() ==> is_settable(cs[index as int]),
            None => true,
        },
    ensures
        match cells_spec(old(ipynb)@) {
            None => r matches Err(CellsError::NoCells) && final(ipynb)@ == old(ipynb)@,
            Some(cs) => if index < cs.len() {
                let edited = set_spec(
                    cs[index as int],
                    "source"@,
                    JsonView::Array(source_lines_spec(code@)),
                );
                &&& r matches Ok(t) && t@ == str_member_or(edited, "cell_type"@, "unknown"@)
                &&& final(ipynb)@ == with_cells(old(ipynb)@, cs.update(index as int, edited))
            } else {
                r matches Err(CellsError::IndexOutOfRange { index: i, len }) && i == index && len
                    == cs.len() && final(ipynb)@ == old(ipynb)@
            },
        },
{
    let mut cs = match cells(ipynb) {
        Ok(v) => copy_cells(v),
        Err(e) => {
            return Err(e);
        },
    };
    let len = cs.len();
    if index >= len {
        return Err(CellsError::IndexOutOfRange { index, len });
    }
    let ghost before = items_view(cs@);
    let mut cell = cs[index].copy();
    cell.set("source", Json::from_vec(source_lines(code)));
    let t = cell_type(&cell);
    let ghost cv = cell@;
    cs.set(index, cell);
    proof {
        assert forall|k: int| 0 <= k < cs@.len() implies items_view(cs@)[k] == before.update(
            index as int,
            cv,
        )[k] by {}
        assert(items_view(cs@) =~= before.update(index as int, cv));
    }
    replace_cells(ipynb, cs);
    Ok(t)
}

/// Removes the cell at `index` and returns it.
pub fn remove_cell(ipynb: &mut Json, index: usize) -> (r: Result<Json, CellsError>)
    ensures
        match cells_spec(old(ipynb)@) {
            None => r matches Err(CellsError::NoCells) && final(ipynb)@ == old(ipynb)@,
            Some(cs) => if index < cs.len() {
                r matches Ok(c) && c@ == cs[index as int] && final(ipynb)@ == with_cells(
                    old(ipynb)@,
                    cs.remove(index as int),
                )
            } else {
                r matches Err(CellsError::IndexOutOfRange { index: i, len }) && i == index && len
                    == cs.len() && final(ipynb)@ == old(ipynb)@
            },
        },
{
    let mut cs = match cells(ipynb) {
        Ok(v) => copy_cells(v),
        Err(e) => {
            return Err(e);
        },
    };
    let len = cs.len();
    if index >= len {
        return Err(CellsError::IndexOutOfRange { index, len });
    }
    let ghost before = items_view(cs@);
    let removed = cs.remove(index);
    proof {
        assert forall|k: int| 0 <= k < cs@.len() implies items_view(cs@)[k] == before.remove(
            index as int,
        )[k] by {}
        assert(items_view(cs@) =~= before.remove(index as int));
    }
    replace_cells(ipynb, cs);
    Ok(removed)
}

/// Adds a cell holding `code` (markdown or code, in the notebook's language group)
/// at `at`, or at the end; returns its index.
pub fn add_cell(ipynb: &mut Json, code: &str, markdown: bool, at: Option<usize>) -> (r: Result<
    usize,
    CellsError,
>)
    ensures
        match cells_spec(old(ipynb)@) {
            None => r matches Err(CellsError::NoCells) && final(ipynb)@ == old(ipynb)@,
            Some(cs) => {
                let cell = new_cell_spec(code@, markdown, language_group_spec(old(ipynb)@));
                match at {
                    Some(pos) => if pos > cs.len() {
                        r matches Err(CellsError::InsertOutOfRange { pos: p, len }) && p == pos
                            && len == cs.len() && final(ipynb)@ == old(ipynb)@
                    } else {
                        r == Ok::<usize, CellsError>(pos) && final(ipynb)@ == with_cells(
                            old(ipynb)@,
                            cs.insert(pos as int, cell),
                        )
                    },
                    None => r == Ok::<usize, CellsError>(cs.len() as usize) && final(ipynb)@
                        == with_cells(old(ipynb)@, cs.push(cell)),
                }
            },
        },
{
    let group = detect_language_group(ipynb);
    let cell = new_cell(code, markdown, group.as_str());
    insert_cell(ipynb, cell, at)
}

// ---------------------------------------------------------------------------
// Kernel and lakehouse of a notebook
// ---------------------------------------------------------------------------

/// The kernel name in notebook metadata: `metadata.kernel_info.name`, else
/// `metadata.kernelspec.name`, as a string, else "jupyter". (A `kernel_info.name`
/// that is not a string gives "jupyter".)
pub open spec fn kernel_name_spec(doc: JsonView) -> Seq<char> {
    let first = lookup_spec(doc, seq!["metadata"@, "kernel_info"@, "name"@]);
    let chosen = if first is Some {
        first
    } else {
        lookup_spec(doc, seq!["metadata"@, "kernelspec"@, "name"@])
    };
    match as_str_spec(chosen) {
        Some(s) => s,
        None => "jupyter"@,
    }
}

/// Detects the kernel name from notebook metadata.
pub fn kernel_name(ipynb: &Json) -> (r: String)
    ensures
        r@ == kernel_name_spec(ipynb@),
{
    let p1 = ["metadata", "kernel_info", "name"];
    let p2 = ["metadata", "kernelspec", "name"];
    proof {
        assert(p1@.map_values(|k: &str| k@) =~= seq!["metadata"@, "kernel_info"@, "name"@]);
        assert(p2@.map_values(|k: &str| k@) =~= seq!["metadata"@, "kernelspec"@, "name"@]);
    }
    let chosen = match ipynb.lookup(&p1) {
        Some(v) => Some(v),
        None => ipynb.lookup(&p2),
    };
    match str_of(chosen) {
        Some(s) => s.to_owned(),
        None => "jupyter".to_owned(),
    }
}

/// The default lakehouse in notebook metadata, when it is a non-empty string.
pub open spec fn default_lakehouse_spec(doc: JsonView) -> Option<Seq<char>> {
    match as_str_spec(
        lookup_spec(doc, seq!["metadata"@, "dependencies"@, "lakehouse"@, "default_lakehouse"@]),
    ) {
        Some(s) => if s.len() > 0 {
            Some(s)
        } else {
            None
        },
        None => None,
    }
}

/// Detects the default lakehouse id from notebook metadata.
pub fn default_lakehouse(ipynb: &Json) -> (r: Option<String>)
    ensures
        match default_lakehouse_spec(ipynb@) {
            Some(s) => r matches Some(x) && x@ == s,
            None => r is None,
        },
{
    let p = ["metadata", "dependencies", "lakehouse", "default_lakehouse"];
    proof {
        assert(p@.map_values(|k: &str| k@) =~= seq![
            "metadata"@,
            "dependencies"@,
            "lakehouse"@,
            "default_lakehouse"@,
        ]);
    }
    match str_of(ipynb.lookup(&p)) {
        Some(s) => if s.unicode_len() > 0 {
            Some(s.to_owned())
        } else {
            None
        },
        None => None,
    }
}

// ---------------------------------------------------------------------------
// Laws
// ---------------------------------------------------------------------------

/// Lines joined with "\n" between them.
pub open spec fn join_lines(ls: Seq<Seq<char>>) -> Seq<char>
    decreases ls.len(),
{
    if ls.len() == 0 {
        seq![]
    } else if ls.len() == 1 {
        ls[0]
    } else {
        join_lines(ls.drop_last()) + "\n"@ + ls.last()
    }
}

/// Replacing the cells and reading them back gives the new cells.
pub proof fn law_cells_read_back(doc: JsonView, cs: Seq<JsonView>)
    requires
        cells_spec(doc) is Some,
    ensures
        cells_spec(with_cells(doc, cs)) == Some(cs),
{
    law_get_after_set(doc, "cells"@, JsonView::Array(cs));
}

/// Removing the cell just inserted restores the document.
pub proof fn law_remove_undoes_insert(doc: JsonView, cell: JsonView, pos: int)
    requires
        cells_spec(doc) is Some,
        0 <= pos <= cells_spec(doc)->0.len(),
    ensures
        ({
            let cs = cells_spec(doc)->0;
            let inserted = cs.insert(pos, cell);
            let d1 = with_cells(doc, inserted);
            &&& cells_spec(d1) == Some(inserted)
            &&& inserted[pos] == cell
            &&& with_cells(d1, inserted.remove(pos)) == doc
        }),
{
    let cs = cells_spec(doc)->0;
    let inserted = cs.insert(pos, cell);
    law_cells_read_back(doc, inserted);
    law_set_twice(doc, "cells"@, JsonView::Array(inserted), JsonView::Array(inserted.remove(pos)));
    assert(inserted.remove(pos) =~= cs);
    let a = get_spec(doc, "cells"@)->0;
    assert(a == JsonView::Array(cs));
    law_set_current_value_is_identity(doc, "cells"@, JsonView::Array(cs));
}

proof fn lemma_concat_source_prefix(ls: Seq<Seq<char>>, k: int)
    requires
        1 <= k <= ls.len(),
    ensures
        concat_strings(source_items(ls).subrange(0, k)) == if k < ls.len() {
            join_lines(ls.subrange(0, k)) + "\n"@
        } else {
            join_lines(ls)
        },
    decreases k,
{
    let si = source_items(ls);
    let pre = si.subrange(0, k);
    assert(pre.drop_last() =~= si.subrange(0, k - 1));
    if k == 1 {
        assert(si.subrange(0, 0) =~= Seq::<JsonView>::empty());
        assert(ls.subrange(0, 1) =~= seq![ls[0]]);
        if k == ls.len() {
            assert(ls =~= seq![ls[0]]);
        }
        assert(concat_strings(pre) =~= concat_strings(si.subrange(0, 0)) + match pre.last() {
            JsonView::Str(s) => s,
            _ => seq![],
        });
    } else {
        lemma_concat_source_prefix(ls, k - 1);
        assert(ls.subrange(0, k).drop_last() =~= ls.subrange(0, k - 1));
        assert(ls.subrange(0, k).last() == ls[k - 1]);
        if k == ls.len() {
            assert(ls.subrange(0, k) =~= ls);
            assert(join_lines(ls) =~= join_lines(ls.subrange(0, k - 1)) + "\n"@ + ls[k - 1]);
            assert(concat_strings(pre) =~= join_lines(ls));
        } else {
            assert(concat_strings(pre) =~= join_lines(ls.subrange(0, k)) + "\n"@);
        }
    }
}

/// After a cell's source is replaced by the lines of `code`, reading the source back
/// gives those lines joined with "\n".
pub proof fn law_edited_source_reads_back(cell: JsonView, code: Seq<char>)
    requires
        is_settable(cell),
    ensures
        cell_source_spec(set_spec(cell, "source"@, JsonView::Array(source_lines_spec(code))))
            == join_lines(lines_spec(code)),
        !code.contains('\r') && (code.len() > 0 ==> code.last() != '\n') ==> cell_source_spec(
            set_spec(cell, "source"@, JsonView::Array(source_lines_spec(code))),
        ) == code,
{
    if !code.contains('\r') && (code.len() > 0 ==> code.last() != '\n') {
        law_join_lines_inverts_lines(code);
    }
    let ls = lines_spec(code);
    law_get_after_set(cell, "source"@, JsonView::Array(source_lines_spec(code)));
    if ls.len() == 0 {
        assert(source_items(ls) =~= Seq::<JsonView>::empty());
    } else {
        lemma_concat_source_prefix(ls, ls.len() as int);
        assert(source_items(ls).subrange(0, ls.len() as int) =~= source_items(ls));
    }
}


proof fn lemma_join_lines_cons(a: Seq<char>, ls: Seq<Seq<char>>)
    requires
        ls.len() > 0,
    ensures
        join_lines(seq![a] + ls) == a + "\n"@ + join_lines(ls),
    decreases ls.len(),
{
    let all = seq![a] + ls;
    if ls.len() == 1 {
        assert(all.drop_last() =~= seq![a]);
        assert(all.last() == ls[0]);
        assert(a + "\n"@ + ls[0] =~= join_lines(seq![a]) + "\n"@ + ls[0]);
    } else {
        lemma_join_lines_cons(a, ls.drop_last());
        assert(all.drop_last() =~= seq![a] + ls.drop_last());
        assert(all.last() == ls.last());
        assert(a + "\n"@ + join_lines(ls) =~= (a + "\n"@ + join_lines(ls.drop_last())) + "\n"@
            + ls.last());
    }
}

/// Splitting text into lines and joining them with "\n" gives the text back, when
/// it has no '\r' and does not end with '\n'.
pub proof fn law_join_lines_inverts_lines(code: Seq<char>)
    requires
        !code.contains('\r'),
        code.len() > 0 ==> code.last() != '\n',
    ensures
        join_lines(lines_spec(code)) == code,
        code.len() > 0 ==> lines_spec(code).len() > 0,
    decreases code.len(),
{
    if code.len() > 0 {
        lemma_find_from_bounds(code, '\n', 0);
        let k = find_from(code, '\n', 0);
        if k < code.len() {
            let head = code.subrange(0, k);
            let rest = code.subrange(k + 1, code.len() as int);
            assert(k < code.len() - 1);
            assert(!rest.contains('\r')) by {
                if rest.contains('\r') {
                    let j = choose|j: int| 0 <= j < rest.len() && rest[j] == '\r';
                    assert(code[k + 1 + j] == '\r');
                }
            }
            assert(rest.last() == code.last());
            law_join_lines_inverts_lines(rest);
            assert(head.len() > 0 ==> head.last() != '\r') by {
                if head.len() > 0 {
                    assert(head.last() == code[k - 1]);
                }
            }
            assert(strip_cr(head) == head);
            lemma_join_lines_cons(head, lines_spec(rest));
            assert(code =~= head + "\n"@ + rest) by {
                reveal_strlit("\n");
            }
        } else {
            assert(join_lines(seq![code]) == code);
        }
    }
}

/// A cell just added holding `code` reads back as the lines of `code` joined with
/// "\n" (so as `code` itself when it has no '\r' and no final line ending).
pub proof fn law_added_cell_reads_back(code: Seq<char>, markdown: bool, language_group: Seq<char>)
    ensures
        cell_source_spec(new_cell_spec(code, markdown, language_group)) == join_lines(
            lines_spec(code),
        ),
        !code.contains('\r') && (code.len() > 0 ==> code.last() != '\n') ==> cell_source_spec(
            new_cell_spec(code, markdown, language_group),
        ) == code,
{
    let cell = new_cell_spec(code, markdown, language_group);
    let ls = lines_spec(code);
    reveal_strlit("source");
    reveal_strlit("cell_type");
    reveal_strlit("metadata");
    let fields = cell->Object_0;
    assert("cell_type"@.len() != "source"@.len() && "metadata"@.len() != "source"@.len());
    lemma_key_pos_is(fields, "source"@, 0, 2);
    assert(get_spec(cell, "source"@) == Some(JsonView::Array(source_lines_spec(code))));
    if ls.len() == 0 {
        assert(source_items(ls) =~= Seq::<JsonView>::empty());
    } else {
        lemma_concat_source_prefix(ls, ls.len() as int);
        assert(source_items(ls).subrange(0, ls.len() as int) =~= source_items(ls));
    }
    if !code.contains('\r') && (code.len() > 0 ==> code.last() != '\n') {
        law_join_lines_inverts_lines(code);
    }
}


/// A new cell is a markdown cell exactly when one was asked for, and a code cell
/// otherwise; only a code cell carries `outputs` (empty) and `execution_count` (null).
pub proof fn law_new_cell_kind(code: Seq<char>, markdown: bool, language_group: Seq<char>)
    ensures
        get_spec(new_cell_spec(code, markdown, language_group), "cell_type"@) == Some(
            JsonView::Str(if markdown { "markdown"@ } else { "code"@ }),
        ),
        markdown ==> get_spec(new_cell_spec(code, markdown, language_group), "outputs"@) is None,
        markdown ==> get_spec(new_cell_spec(code, markdown, language_group), "execution_count"@)
            is None,
        !markdown ==> get_spec(new_cell_spec(code, markdown, language_group), "outputs"@)
            == Some(JsonView::Array(seq![])),
        !markdown ==> get_spec(new_cell_spec(code, markdown, language_group), "execution_count"@)
            == Some(JsonView::Null),
{
    reveal_strlit("cell_type");
    reveal_strlit("metadata");
    reveal_strlit("source");
    reveal_strlit("outputs");
    reveal_strlit("execution_count");
    let f = new_cell_spec(code, markdown, language_group)->Object_0;
    lemma_key_pos_is(f, "cell_type"@, 0, 0);
    assert("metadata"@.len() != "outputs"@.len() && "source"@.len() != "outputs"@.len());
    assert("cell_type"@[0] != "outputs"@[0]);
    assert("cell_type"@.len() != "execution_count"@.len() && "metadata"@.len()
        != "execution_count"@.len() && "source"@.len() != "execution_count"@.len()
        && "outputs"@.len() != "execution_count"@.len());
    if markdown {
        lemma_key_pos_is(f, "outputs"@, 0, 3);
        lemma_key_pos_is(f, "execution_count"@, 0, 3);
    } else {
        lemma_key_pos_is(f, "outputs"@, 0, 3);
        lemma_key_pos_is(f, "execution_count"@, 0, 4);
    }
}

/// After `add_cell`, the cell at the insertion point has type "markdown" exactly when
/// a markdown cell was asked for, and "code" otherwise.
pub proof fn law_added_cell_kind(
    doc: JsonView,
    code: Seq<char>,
    markdown: bool,
    pos: int,
)
    requires
        cells_spec(doc) is Some,
        0 <= pos <= cells_spec(doc)->0.len(),
    ensures
        ({
            let cell = new_cell_spec(code, markdown, language_group_spec(doc));
            let after = with_cells(doc, cells_spec(doc)->0.insert(pos, cell));
            get_spec(cells_spec(after)->0[pos], "cell_type"@) == Some(
                JsonView::Str(if markdown { "markdown"@ } else { "code"@ }),
            )
        }),
{
    let cell = new_cell_spec(code, markdown, language_group_spec(doc));
    let inserted = cells_spec(doc)->0.insert(pos, cell);
    law_cells_read_back(doc, inserted);
    law_new_cell_kind(code, markdown, language_group_spec(doc));
}

} // verus!

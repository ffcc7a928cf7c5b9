//! The `.ipynb` document of a new Fabric notebook, and the request that creates it.
use vstd::prelude::*;
use vstd::string::StringSliceAdditionalSpecFns;
use crate::encoding::{b64_encode, base64_encode};
use crate::cells::{cells_spec, kernel_name_spec, language_group_spec};
use crate::json::{
    fields_view, get_spec, items_view, lemma_key_pos_is, lookup_spec, opt_str_view, Json,
    JsonNumber, JsonView, NumberView,
};
use crate::json_ops::{no_items, no_members, object, push_item, push_member, str_eq};

verus! {

broadcast use crate::json::group_json_view;

/// A sequence of two elements.
pub open spec fn list2<A>(a: A, b: A) -> Seq<A> {
    seq![a].push(b)
}

/// A sequence of three elements.
pub open spec fn list3<A>(a: A, b: A, c: A) -> Seq<A> {
    list2(a, b).push(c)
}

/// A sequence of four elements.
pub open spec fn list4<A>(a: A, b: A, c: A, d: A) -> Seq<A> {
    list3(a, b, c).push(d)
}

/// A sequence of five elements.
pub open spec fn list5<A>(a: A, b: A, c: A, d: A, e: A) -> Seq<A> {
    list4(a, b, c, d).push(e)
}

/// A sequence of seven elements.
pub open spec fn list7<A>(a: A, b: A, c: A, d: A, e: A, f: A, g: A) -> Seq<A> {
    list5(a, b, c, d, e).push(f).push(g)
}

/// A string value.
pub open spec fn jstr(s: Seq<char>) -> JsonView {
    JsonView::Str(s)
}

/// An unsigned number value.
pub open spec fn juint(u: u64) -> JsonView {
    JsonView::Number(NumberView::UInt(u))
}

/// The kernel names and language for a kernel choice: "pyspark" selects the Spark
/// kernel, anything else the plain Python kernel.
/// Returns (kernel name, language group, kernelspec name, language).
pub open spec fn kernel_settings(kernel: Seq<char>) -> (Seq<char>, Seq<char>, Seq<char>, Seq<char>) {
    if kernel == "pyspark"@ {
        ("synapse_pyspark"@, "synapse_pyspark"@, "python3"@, "python"@)
    } else {
        ("jupyter"@, "jupyter_python"@, "jupyter"@, "python"@)
    }
}

/// `metadata.kernel_info`.
pub open spec fn kernel_info_spec(kernel: Seq<char>) -> JsonView {
    let base = seq![("name"@, jstr(kernel_settings(kernel).0))];
    if kernel == "python"@ {
        JsonView::Object(base.push(("jupyter_kernel_name"@, jstr("python3.11"@))))
    } else {
        JsonView::Object(base)
    }
}

/// `metadata.kernelspec`.
pub open spec fn kernelspec_spec(kernel: Seq<char>) -> JsonView {
    let display = if kernel == "python"@ {
        "Jupyter"@
    } else {
        "Python 3"@
    };
    JsonView::Object(
        list3(
            ("name"@, jstr(kernel_settings(kernel).2)),
            ("display_name"@, jstr(display)),
            ("language"@, jstr(kernel_settings(kernel).3)),
        ),
    )
}

/// `metadata.microsoft`.
pub open spec fn microsoft_spec(kernel: Seq<char>) -> JsonView {
    JsonView::Object(
        list3(
            ("language"@, jstr(kernel_settings(kernel).3)),
            ("language_group"@, jstr(kernel_settings(kernel).1)),
            ("ms_spell_check"@, JsonView::Object(seq![("ms_spell_check_language"@, jstr("en"@))])),
        ),
    )
}

/// The default-lakehouse dependency.
pub open spec fn lakehouse_dep_spec(id: Seq<char>, name: Seq<char>, ws: Seq<char>) -> JsonView {
    JsonView::Object(
        list4(
            ("default_lakehouse"@, jstr(id)),
            ("default_lakehouse_name"@, jstr(name)),
            ("default_lakehouse_workspace_id"@, jstr(ws)),
            ("known_lakehouses"@, JsonView::Array(seq![JsonView::Object(seq![("id"@, jstr(id))])])),
        ),
    )
}

/// The default-warehouse dependency.
pub open spec fn warehouse_dep_spec(id: Seq<char>, name: Seq<char>, ws: Seq<char>) -> JsonView {
    let entry = JsonView::Object(list2(("id"@, jstr(id)), ("type"@, jstr("Datawarehouse"@))));
    JsonView::Object(
        list4(
            ("default_warehouse"@, jstr(id)),
            ("default_warehouse_name"@, jstr(name)),
            ("default_warehouse_workspace_id"@, jstr(ws)),
            ("known_warehouses"@, JsonView::Array(seq![entry])),
        ),
    )
}

/// Both parts of an optional binding are given.
pub open spec fn both(a: Option<Seq<char>>, b: Option<Seq<char>>) -> bool {
    a is Some && b is Some
}

/// `metadata.dependencies`: a lakehouse when its id and name are both given, then a
/// warehouse when its id and name are both given.
pub open spec fn dependencies_spec(
    lh_id: Option<Seq<char>>,
    lh_name: Option<Seq<char>>,
    wh_id: Option<Seq<char>>,
    wh_name: Option<Seq<char>>,
    ws: Seq<char>,
) -> Seq<(Seq<char>, JsonView)> {
    let lh = if both(lh_id, lh_name) {
        seq![("lakehouse"@, lakehouse_dep_spec(lh_id->0, lh_name->0, ws))]
    } else {
        seq![]
    };
    if both(wh_id, wh_name) {
        lh.push(("warehouse"@, warehouse_dep_spec(wh_id->0, wh_name->0, ws)))
    } else {
        lh
    }
}

/// The notebook metadata; `dependencies` is present only when it has members.
pub open spec fn metadata_spec(
    kernel: Seq<char>,
    lh_id: Option<Seq<char>>,
    lh_name: Option<Seq<char>>,
    wh_id: Option<Seq<char>>,
    wh_name: Option<Seq<char>>,
    ws: Seq<char>,
) -> JsonView {
    let lang = kernel_settings(kernel).3;
    let base = list7(
        ("kernel_info"@, kernel_info_spec(kernel)),
        ("kernelspec"@, kernelspec_spec(kernel)),
        ("language_info"@, JsonView::Object(list2(("name"@, jstr(lang)), ("version"@, jstr(""@))))),
        ("microsoft"@, microsoft_spec(kernel)),
        ("nteract"@, JsonView::Object(seq![("version"@, jstr("nteract-front-end@1.0.0"@))])),
        ("widgets"@, JsonView::Object(seq![])),
        ("spark_compute"@, JsonView::Object(seq![("compute_id"@, jstr("/trident/default"@))])),
    );
    let deps = dependencies_spec(lh_id, lh_name, wh_id, wh_name, ws);
    if deps.len() > 0 {
        JsonView::Object(base.push(("dependencies"@, JsonView::Object(deps))))
    } else {
        JsonView::Object(base)
    }
}

/// The single empty code cell of a new notebook.
pub open spec fn first_cell_spec(kernel: Seq<char>) -> JsonView {
    let microsoft = JsonView::Object(
        list2(
            ("language"@, jstr(kernel_settings(kernel).3)),
            ("language_group"@, jstr(kernel_settings(kernel).1)),
        ),
    );
    JsonView::Object(
        list5(
            ("cell_type"@, jstr("code"@)),
            ("metadata"@, JsonView::Object(seq![("microsoft"@, microsoft)])),
            ("source"@, JsonView::Array(seq![jstr(""@)])),
            ("outputs"@, JsonView::Array(seq![])),
            ("execution_count"@, JsonView::Null),
        ),
    )
}

/// The whole `.ipynb` document of a new notebook (nbformat 4.5).
pub open spec fn ipynb_spec(
    kernel: Seq<char>,
    lh_id: Option<Seq<char>>,
    lh_name: Option<Seq<char>>,
    wh_id: Option<Seq<char>>,
    wh_name: Option<Seq<char>>,
    ws: Seq<char>,
) -> JsonView {
    JsonView::Object(
        list4(
            ("nbformat"@, juint(4)),
            ("nbformat_minor"@, juint(5)),
            ("metadata"@, metadata_spec(kernel, lh_id, lh_name, wh_id, wh_name, ws)),
            ("cells"@, JsonView::Array(seq![first_cell_spec(kernel)])),
        ),
    )
}

fn jstring(s: &str) -> (r: Json)
    ensures
        r@ == jstr(s@),
{
    Json::Str(s.to_owned())
}

fn one_member(k: &str, v: Json) -> (r: Json)
    ensures
        r@ == JsonView::Object(seq![(k@, v@)]),
{
    let mut f = no_members();
    push_member(&mut f, k, v);
    object(f)
}

fn kernel_info(kernel: &str, kernel_name: &str) -> (r: Json)
    requires
        kernel_name@ == kernel_settings(kernel@).0,
    ensures
        r@ == kernel_info_spec(kernel@),
{
    let mut f = no_members();
    push_member(&mut f, "name", jstring(kernel_name));
    if str_eq(kernel, "python") {
        push_member(&mut f, "jupyter_kernel_name", jstring("python3.11"));
    }
    object(f)
}

fn lakehouse_dep(id: &str, name: &str, ws: &str) -> (r: Json)
    ensures
        r@ == lakehouse_dep_spec(id@, name@, ws@),
{
    let mut f = no_members();
    push_member(&mut f, "default_lakehouse", jstring(id));
    push_member(&mut f, "default_lakehouse_name", jstring(name));
    push_member(&mut f, "default_lakehouse_workspace_id", jstring(ws));
    let mut known = no_items();
    push_item(&mut known, one_member("id", jstring(id)));
    push_member(&mut f, "known_lakehouses", Json::from_vec(known));
    object(f)
}

fn warehouse_dep(id: &str, name: &str, ws: &str) -> (r: Json)
    ensures
        r@ == warehouse_dep_spec(id@, name@, ws@),
{
    let mut f = no_members();
    push_member(&mut f, "default_warehouse", jstring(id));
    push_member(&mut f, "default_warehouse_name", jstring(name));
    push_member(&mut f, "default_warehouse_workspace_id", jstring(ws));
    let mut entry = no_members();
    push_member(&mut entry, "id", jstring(id));
    push_member(&mut entry, "type", jstring("Datawarehouse"));
    let mut known = no_items();
    push_item(&mut known, object(entry));
    push_member(&mut f, "known_warehouses", Json::from_vec(known));
    object(f)
}

/// Generates the `.ipynb` document of a new notebook for the chosen kernel
/// ("python" or "pyspark"), with an optional default lakehouse and warehouse (each
/// bound only when both its id and name are given) in workspace `workspace_id`.
pub fn generate_ipynb(
    kernel: &str,
    lakehouse_id: Option<&str>,
    lakehouse_name: Option<&str>,
    warehouse_id: Option<&str>,
    warehouse_name: Option<&str>,
    workspace_id: &str,
) -> (r: Json)
    ensures
        r@ == ipynb_spec(
            kernel@,
            opt_str_view(lakehouse_id),
            opt_str_view(lakehouse_name),
            opt_str_view(warehouse_id),
            opt_str_view(warehouse_name),
            workspace_id@,
        ),
{
    let pyspark = str_eq(kernel, "pyspark");
    let (kernel_name, language_group, kernelspec_name, language) = if pyspark {
        ("synapse_pyspark", "synapse_pyspark", "python3", "python")
    } else {
        ("jupyter", "jupyter_python", "jupyter", "python")
    };
    let is_python = str_eq(kernel, "python");
    let kernelspec_display = if is_python {
        "Jupyter"
    } else {
        "Python 3"
    };

    let mut kernelspec = no_members();
    push_member(&mut kernelspec, "name", jstring(kernelspec_name));
    push_member(&mut kernelspec, "display_name", jstring(kernelspec_display));
    push_member(&mut kernelspec, "language", jstring(language));

    let mut language_info = no_members();
    push_member(&mut language_info, "name", jstring(language));
    push_member(&mut language_info, "version", jstring(""));

    let mut microsoft = no_members();
    push_member(&mut microsoft, "language", jstring(language));
    push_member(&mut microsoft, "language_group", jstring(language_group));
    push_member(&mut microsoft, "ms_spell_check", one_member("ms_spell_check_language", jstring("en")));

    let mut metadata = no_members();
    push_member(&mut metadata, "kernel_info", kernel_info(kernel, kernel_name));
    push_member(&mut metadata, "kernelspec", object(kernelspec));
    push_member(&mut metadata, "language_info", object(language_info));
    push_member(&mut metadata, "microsoft", object(microsoft));
    push_member(&mut metadata, "nteract", one_member("version", jstring("nteract-front-end@1.0.0")));
    push_member(&mut metadata, "widgets", object(no_members()));
    push_member(&mut metadata, "spark_compute", one_member("compute_id", jstring("/trident/default")));

    let mut deps = no_members();
    if let (Some(lh_id), Some(lh_name)) = (lakehouse_id, lakehouse_name) {
        push_member(&mut deps, "lakehouse", lakehouse_dep(lh_id, lh_name, workspace_id));
    }
    if let (Some(wh_id), Some(wh_name)) = (warehouse_id, warehouse_name) {
        push_member(&mut deps, "warehouse", warehouse_dep(wh_id, wh_name, workspace_id));
    }
    assert(fields_view(deps@) == dependencies_spec(
        opt_str_view(lakehouse_id),
        opt_str_view(lakehouse_name),
        opt_str_view(warehouse_id),
        opt_str_view(warehouse_name),
        workspace_id@,
    ));
    if deps.len() > 0 {
        push_member(&mut metadata, "dependencies", object(deps));
    }

    let mut cell_ms = no_members();
    push_member(&mut cell_ms, "language", jstring(language));
    push_member(&mut cell_ms, "language_group", jstring(language_group));
    let mut source = no_items();
    push_item(&mut source, jstring(""));
    let mut cell = no_members();
    push_member(&mut cell, "cell_type", jstring("code"));
    push_member(&mut cell, "metadata", one_member("microsoft", object(cell_ms)));
    push_member(&mut cell, "source", Json::from_vec(source));
    push_member(&mut cell, "outputs", Json::from_vec(no_items()));
    push_member(&mut cell, "execution_count", Json::Null);
    let mut cells = no_items();
    push_item(&mut cells, object(cell));

    let mut doc = no_members();
    push_member(&mut doc, "nbformat", Json::Number(JsonNumber::UInt(4)));
    push_member(&mut doc, "nbformat_minor", Json::Number(JsonNumber::UInt(5)));
    push_member(&mut doc, "metadata", object(metadata));
    push_member(&mut doc, "cells", Json::from_vec(cells));
    object(doc)
}

/// Base64 of a document's text (its UTF-8 bytes), as definition parts carry it.
pub fn encode_payload(text: &str) -> (r: String)
    ensures
        r@ == b64_encode(text.spec_bytes()),
{
    base64_encode(text.as_bytes())
}

/// The request body that creates notebook `display_name` from an encoded `.ipynb`.
pub open spec fn create_notebook_body_spec(display_name: Seq<char>, payload: Seq<char>) -> JsonView {
    JsonView::Object(
        list3(
            ("displayName"@, jstr(display_name)),
            ("type"@, jstr("Notebook"@)),
            ("definition"@, definition_spec(payload)),
        ),
    )
}

/// The `definition` of a notebook with one `.ipynb` part.
pub open spec fn definition_spec(payload: Seq<char>) -> JsonView {
    let part = JsonView::Object(
        list3(
            ("path"@, jstr("notebook-content.ipynb"@)),
            ("payload"@, jstr(payload)),
            ("payloadType"@, jstr("InlineBase64"@)),
        ),
    );
    JsonView::Object(list2(("format"@, jstr("ipynb"@)), ("parts"@, JsonView::Array(seq![part]))))
}

/// The `definition` member of a create or update request.
pub fn notebook_definition(payload: &str) -> (r: Json)
    ensures
        r@ == definition_spec(payload@),
{
    let mut part = no_members();
    push_member(&mut part, "path", jstring("notebook-content.ipynb"));
    push_member(&mut part, "payload", jstring(payload));
    push_member(&mut part, "payloadType", jstring("InlineBase64"));
    let mut parts = no_items();
    push_item(&mut parts, object(part));
    let mut def = no_members();
    push_member(&mut def, "format", jstring("ipynb"));
    push_member(&mut def, "parts", Json::from_vec(parts));
    object(def)
}

/// The request that creates a notebook.
pub fn create_notebook_body(display_name: &str, payload: &str) -> (r: Json)
    ensures
        r@ == create_notebook_body_spec(display_name@, payload@),
{
    let mut f = no_members();
    push_member(&mut f, "displayName", jstring(display_name));
    push_member(&mut f, "type", jstring("Notebook"));
    push_member(&mut f, "definition", notebook_definition(payload));
    object(f)
}

/// The request that replaces a notebook's definition.
pub fn update_definition_body(payload: &str) -> (r: Json)
    ensures
        r@ == JsonView::Object(seq![("definition"@, definition_spec(payload@))]),
{
    one_member("definition", notebook_definition(payload))
}


/// The metadata member of a new notebook.
proof fn lemma_ipynb_metadata(
    kernel: Seq<char>,
    lh_id: Option<Seq<char>>,
    lh_name: Option<Seq<char>>,
    wh_id: Option<Seq<char>>,
    wh_name: Option<Seq<char>>,
    ws: Seq<char>,
)
    ensures
        get_spec(ipynb_spec(kernel, lh_id, lh_name, wh_id, wh_name, ws), "metadata"@) == Some(
            metadata_spec(kernel, lh_id, lh_name, wh_id, wh_name, ws),
        ),
        get_spec(ipynb_spec(kernel, lh_id, lh_name, wh_id, wh_name, ws), "cells"@) == Some(
            JsonView::Array(seq![first_cell_spec(kernel)]),
        ),
        get_spec(metadata_spec(kernel, lh_id, lh_name, wh_id, wh_name, ws), "microsoft"@) == Some(
            microsoft_spec(kernel),
        ),
        get_spec(metadata_spec(kernel, lh_id, lh_name, wh_id, wh_name, ws), "kernel_info"@)
            == Some(kernel_info_spec(kernel)),
{
    reveal_strlit("nbformat");
    reveal_strlit("nbformat_minor");
    reveal_strlit("metadata");
    reveal_strlit("cells");
    reveal_strlit("kernel_info");
    reveal_strlit("kernelspec");
    reveal_strlit("language_info");
    reveal_strlit("microsoft");
    let d = ipynb_spec(kernel, lh_id, lh_name, wh_id, wh_name, ws)->Object_0;
    assert("nbformat"@[0] != "metadata"@[0] && "nbformat_minor"@.len() != "metadata"@.len());
    lemma_key_pos_is(d, "metadata"@, 0, 2);
    assert("nbformat"@.len() != "cells"@.len() && "nbformat_minor"@.len() != "cells"@.len()
        && "metadata"@.len() != "cells"@.len());
    lemma_key_pos_is(d, "cells"@, 0, 3);
    let m = metadata_spec(kernel, lh_id, lh_name, wh_id, wh_name, ws)->Object_0;
    assert("kernel_info"@.len() != "microsoft"@.len() && "kernelspec"@.len()
        != "microsoft"@.len() && "language_info"@.len() != "microsoft"@.len());
    lemma_key_pos_is(m, "microsoft"@, 0, 3);
    lemma_key_pos_is(m, "kernel_info"@, 0, 0);
}

/// The language group a new notebook records in its metadata is the one its kernel
/// selects ("synapse_pyspark" for "pyspark", "jupyter_python" otherwise), and its
/// single cell records the same group; so cells added later get that group.
pub proof fn law_new_notebook_language_group(
    kernel: Seq<char>,
    lh_id: Option<Seq<char>>,
    lh_name: Option<Seq<char>>,
    wh_id: Option<Seq<char>>,
    wh_name: Option<Seq<char>>,
    ws: Seq<char>,
)
    ensures
        ({
            let doc = ipynb_spec(kernel, lh_id, lh_name, wh_id, wh_name, ws);
            let group = if kernel == "pyspark"@ {
                "synapse_pyspark"@
            } else {
                "jupyter_python"@
            };
            &&& language_group_spec(doc) == group
            &&& cells_spec(doc) matches Some(cs) && cs.len() == 1 && lookup_spec(
                cs[0],
                seq!["metadata"@, "microsoft"@, "language_group"@],
            ) == Some(JsonView::Str(group))
        }),
{
    reveal_with_fuel(lookup_spec, 4);
    reveal_strlit("language");
    reveal_strlit("language_group");
    reveal_strlit("cell_type");
    reveal_strlit("metadata");
    reveal_strlit("microsoft");
    lemma_ipynb_metadata(kernel, lh_id, lh_name, wh_id, wh_name, ws);
    let ms = microsoft_spec(kernel)->Object_0;
    assert("language"@.len() != "language_group"@.len());
    lemma_key_pos_is(ms, "language_group"@, 0, 1);
    let path = seq!["metadata"@, "microsoft"@, "language_group"@];
    assert(path.drop_first() =~= seq!["microsoft"@, "language_group"@]);
    assert(path.drop_first().drop_first() =~= seq!["language_group"@]);
    assert(path.drop_first().drop_first().drop_first() =~= Seq::<Seq<char>>::empty());
    let c = first_cell_spec(kernel)->Object_0;
    assert("cell_type"@.len() != "metadata"@.len());
    lemma_key_pos_is(c, "metadata"@, 0, 1);
    let cm = get_spec(first_cell_spec(kernel), "metadata"@)->0->Object_0;
    lemma_key_pos_is(cm, "microsoft"@, 0, 0);
    let cms = get_spec(get_spec(first_cell_spec(kernel), "metadata"@)->0, "microsoft"@)->0->Object_0;
    lemma_key_pos_is(cms, "language_group"@, 0, 1);
}


/// The kernel a new notebook records is "synapse_pyspark" for the "pyspark" kernel and
/// "jupyter" otherwise, so running its cells picks the Spark session kind exactly for
/// notebooks created with "pyspark".
pub proof fn law_new_notebook_kernel(
    kernel: Seq<char>,
    lh_id: Option<Seq<char>>,
    lh_name: Option<Seq<char>>,
    wh_id: Option<Seq<char>>,
    wh_name: Option<Seq<char>>,
    ws: Seq<char>,
)
    ensures
        kernel_name_spec(ipynb_spec(kernel, lh_id, lh_name, wh_id, wh_name, ws)) == (if kernel
            == "pyspark"@ {
            "synapse_pyspark"@
        } else {
            "jupyter"@
        }),
{
    reveal_with_fuel(lookup_spec, 4);
    reveal_strlit("name");
    reveal_strlit("metadata");
    reveal_strlit("kernel_info");
    lemma_ipynb_metadata(kernel, lh_id, lh_name, wh_id, wh_name, ws);
    let ki = kernel_info_spec(kernel)->Object_0;
    lemma_key_pos_is(ki, "name"@, 0, 0);
    let path = seq!["metadata"@, "kernel_info"@, "name"@];
    assert(path.drop_first() =~= seq!["kernel_info"@, "name"@]);
    assert(path.drop_first().drop_first() =~= seq!["name"@]);
    assert(path.drop_first().drop_first().drop_first() =~= Seq::<Seq<char>>::empty());
}

} // verus!

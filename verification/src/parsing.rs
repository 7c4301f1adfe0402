//! Parsing of `tools/list` responses.
//!
//! A result's `tools` member is read as an array of tool entries (absent
//! or non-array means no tools, not an error). Entries without a string
//! `name` are skipped. A schema is accepted from either field spelling,
//! `inputSchema` first, and only when it is itself an object.

use vstd::prelude::*;

use crate::json::is_object;
use crate::json::spec_get;
use crate::json::take_field;
use crate::json::take_field4;
use crate::json::JsonValue;
use crate::types::McpToolInfo;

verus! {

/// The tool entries of a `tools/list` result: its `tools` array, or
/// nothing when that member is absent or not an array.
pub open spec fn spec_tool_entries(result: JsonValue) -> Seq<JsonValue> {
    match spec_get(result, "tools"@) {
        Some(JsonValue::Array(items)) => items@,
        _ => Seq::empty(),
    }
}

/// An entry is well formed when it carries a string `name`.
pub open spec fn spec_tool_has_name(e: JsonValue) -> bool {
    spec_get(e, "name"@) matches Some(JsonValue::Text(_))
}

/// The well-formed entries, in order.
pub open spec fn spec_named_tools(entries: Seq<JsonValue>) -> Seq<JsonValue> {
    entries.filter(|e: JsonValue| spec_tool_has_name(e))
}

/// The schema of an entry: the value under `inputSchema` when that
/// spelling is present, else the value under `input_schema`; in either
/// case kept only when the value is an object.
pub open spec fn spec_tool_schema(e: JsonValue) -> Option<JsonValue> {
    match spec_get(e, "inputSchema"@) {
        Some(s) => if s matches JsonValue::Object(_) {
            Some(s)
        } else {
            None
        },
        None => match spec_get(e, "input_schema"@) {
            Some(s) => if s matches JsonValue::Object(_) {
                Some(s)
            } else {
                None
            },
            None => None,
        },
    }
}

/// `t` is the descriptor parsed from the well-formed entry `e`.
pub open spec fn spec_tool_matches(e: JsonValue, t: McpToolInfo) -> bool {
    &&& spec_get(e, "name"@) matches Some(JsonValue::Text(n)) && t.name == n
    &&& (match spec_get(e, "description"@) {
        Some(JsonValue::Text(d)) => t.description == Some(d),
        _ => t.description is None,
    })
    &&& t.input_schema == spec_tool_schema(e)
}

/// Parsing sees exactly the well-formed entries: inserting an entry
/// without a string `name` anywhere in the array leaves the parsed
/// descriptors unchanged, so their number never depends on how the
/// malformed entries are placed among them.
pub proof fn lemma_malformed_entry_ignored(entries: Seq<JsonValue>, bad: JsonValue, i: int)
    requires
        0 <= i <= entries.len(),
        !spec_tool_has_name(bad),
    ensures
        spec_named_tools(entries.insert(i, bad)) == spec_named_tools(entries),
{
    let pred = |e: JsonValue| spec_tool_has_name(e);
    assert(entries.insert(i, bad) =~= entries.take(i) + (seq![bad] + entries.skip(i)));
    assert(entries =~= entries.take(i) + entries.skip(i));
    Seq::filter_distributes_over_add(entries.take(i), seq![bad] + entries.skip(i), pred);
    Seq::filter_distributes_over_add(seq![bad], entries.skip(i), pred);
    Seq::filter_distributes_over_add(entries.take(i), entries.skip(i), pred);
    assert(seq![bad].filter(pred) =~= Seq::<JsonValue>::empty()) by {
        reveal_with_fuel(Seq::filter, 2);
        assert(seq![bad].drop_last() =~= Seq::<JsonValue>::empty());
    }
}

/// Turns one well-formed entry into its descriptor; yields nothing for a
/// malformed entry.
fn parse_tool_entry(e: JsonValue) -> (r: Option<McpToolInfo>)
    ensures
        match r {
            Some(t) => spec_tool_has_name(e) && spec_tool_matches(e, t),
            None => !spec_tool_has_name(e),
        },
{
    proof {
        reveal_strlit("name");
        reveal_strlit("description");
        reveal_strlit("inputSchema");
        reveal_strlit("input_schema");
        assert("name"@.len() == 4);
        assert("description"@.len() == 11);
        assert("inputSchema"@.len() == 11);
        assert("input_schema"@.len() == 12);
        assert("description"@[0] == 'd' && "inputSchema"@[0] == 'i');
    }
    let (name_slot, desc_slot, camel_slot, snake_slot) = take_field4(
        e,
        "name",
        "description",
        "inputSchema",
        "input_schema",
    );
    match name_slot {
        Some(JsonValue::Text(n)) => {
            let description: Option<String> = match desc_slot {
                Some(JsonValue::Text(d)) => Some(d),
                _ => None,
            };
            let input_schema: Option<JsonValue> = match camel_slot {
                Some(s) => if is_object(&s) {
                    Some(s)
                } else {
                    None
                },
                None => match snake_slot {
                    Some(s) => if is_object(&s) {
                        Some(s)
                    } else {
                        None
                    },
                    None => None,
                },
            };
            Some(McpToolInfo { name: n, description, input_schema })
        },
        _ => None,
    }
}

/// Parses the tools array of a `tools/list` result. The descriptors are
/// exactly the well-formed entries, in their order of appearance.
pub fn parse_tools_array(result: JsonValue) -> (r: Vec<McpToolInfo>)
    ensures
        r@.len() == spec_named_tools(spec_tool_entries(result)).len(),
        forall|i: int|
            0 <= i < r@.len() ==> spec_tool_matches(
                spec_named_tools(spec_tool_entries(result))[i],
                #[trigger] r@[i],
            ),
{
    proof {
        reveal_strlit("tools");
    }
    let tools_slot = take_field(result, "tools");
    let mut entries: Vec<JsonValue> = match tools_slot {
        Some(JsonValue::Array(items)) => items,
        _ => Vec::new(),
    };
    let ghost orig = entries@;
    proof {
        assert(orig =~= spec_tool_entries(result));
    }
    let mut out: Vec<McpToolInfo> = Vec::new();
    let ghost pred = |e: JsonValue| spec_tool_has_name(e);
    while entries.len() > 0
        invariant
            entries@.len() <= orig.len(),
            entries@ == orig.skip(orig.len() - entries@.len()),
            pred == (|e: JsonValue| spec_tool_has_name(e)),
            out@.len() == orig.take(orig.len() - entries@.len()).filter(pred).len(),
            forall|i: int|
                0 <= i < out@.len() ==> spec_tool_matches(
                    orig.take(orig.len() - entries@.len()).filter(pred)[i],
                    #[trigger] out@[i],
                ),
        decreases entries.len(),
    {
        let ghost k = orig.len() - entries@.len();
        let entry = entries.remove(0);
        proof {
            assert(entry == orig[k]);
            assert(orig.skip(k).remove(0) =~= orig.skip(k + 1));
            assert(orig.take(k + 1).drop_last() =~= orig.take(k));
            assert(orig.take(k + 1).last() == orig[k]);
        }
        let parsed = parse_tool_entry(entry);
        proof {
            reveal_with_fuel(Seq::filter, 2);
            assert(orig.take(k + 1).filter(pred) == if pred(orig[k]) {
                orig.take(k).filter(pred).push(orig[k])
            } else {
                orig.take(k).filter(pred)
            });
        }
        match parsed {
            Some(t) => {
                out.push(t);
            },
            None => {},
        }
    }
    proof {
        assert(orig.take(orig.len() as int) =~= orig);
        assert(spec_named_tools(spec_tool_entries(result)) == orig.filter(pred));
    }
    out
}

} // verus!

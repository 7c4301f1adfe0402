//! Extraction of textual content from a `tools/call` result.
//!
//! A result's `content` member may be a bare string, or an array of
//! content blocks of which only the `text`-typed ones are kept, joined
//! by newlines. Any other shape yields the empty string, not an error.

use vstd::prelude::*;

use crate::json::spec_get;
use crate::json::str_eq;
use crate::json::take_field;
use crate::json::take_field2;
use crate::json::JsonValue;

verus! {

/// The text carried by one content block: present when the block's
/// `type` is `"text"` and its `text` member is a string.
pub open spec fn spec_block_text(item: JsonValue) -> Option<Seq<char>> {
    if spec_get(item, "type"@) matches Some(JsonValue::Text(t)) && t@ == "text"@ {
        match spec_get(item, "text"@) {
            Some(JsonValue::Text(s)) => Some(s@),
            _ => None,
        }
    } else {
        None
    }
}

/// Folds the text blocks of `items` onto `acc`, inserting a newline
/// before a block only when something has been gathered already.
pub open spec fn spec_join_blocks(items: Seq<JsonValue>, acc: Seq<char>) -> Seq<char>
    decreases items.len(),
{
    if items.len() == 0 {
        acc
    } else {
        let next = match spec_block_text(items[0]) {
            Some(t) => if acc.len() == 0 {
                t
            } else {
                acc + seq!['\n'] + t
            },
            None => acc,
        };
        spec_join_blocks(items.drop_first(), next)
    }
}

/// The textual content of a `tools/call` result.
pub open spec fn spec_text_content(result: JsonValue) -> Seq<char> {
    match spec_get(result, "content"@) {
        Some(JsonValue::Text(s)) => s@,
        Some(JsonValue::Array(items)) => spec_join_blocks(items@, Seq::empty()),
        _ => Seq::empty(),
    }
}

/// Reads one content block, consuming it.
fn block_text(item: JsonValue) -> (r: Option<String>)
    ensures
        match r {
            Some(s) => spec_block_text(item) == Some(s@),
            None => spec_block_text(item) is None,
        },
{
    proof {
        reveal_strlit("type");
        reveal_strlit("text");
        assert("type"@[1] == 'y');
        assert("text"@[1] == 'e');
    }
    let (ty_slot, tx_slot) = take_field2(item, "type", "text");
    match ty_slot {
        Some(JsonValue::Text(t)) => {
            if str_eq(t.as_str(), "text") {
                match tx_slot {
                    Some(JsonValue::Text(s)) => Some(s),
                    _ => None,
                }
            } else {
                None
            }
        },
        _ => None,
    }
}

/// Extracts the textual content of a `tools/call` result.
pub fn extract_text_content(result: JsonValue) -> (r: String)
    ensures
        r@ == spec_text_content(result),
{
    proof {
        reveal_strlit("content");
        reveal_strlit("\n");
    }
    let content_slot = take_field(result, "content");
    match content_slot {
        Some(JsonValue::Text(s)) => s,
        Some(JsonValue::Array(mut items)) => {
            let ghost orig = items@;
            let mut out = String::new();
            while items.len() > 0
                invariant
                    items@.len() <= orig.len(),
                    items@ == orig.skip(orig.len() - items@.len()),
                    spec_join_blocks(orig, Seq::empty()) == spec_join_blocks(items@, out@),
                decreases items.len(),
            {
                let ghost k = orig.len() - items@.len();
                let item = items.remove(0);
                proof {
                    assert(item == orig.skip(k)[0]);
                    assert(orig.skip(k).remove(0) =~= orig.skip(k + 1));
                    assert(orig.skip(k).drop_first() =~= orig.skip(k + 1));
                }
                match block_text(item) {
                    Some(t) => {
                        if out.as_str().is_empty() {
                            out = t;
                        } else {
                            out.append("\n");
                            out.append(t.as_str());
                            proof {
                                reveal_strlit("\n");
                                assert("\n"@ =~= seq!['\n']);
                            }
                        }
                    },
                    None => {},
                }
            }
            out
        },
        _ => String::new(),
    }
}

} // verus!

//! The texts that a drawing puts next to points and cells.

use crate::text::decimal;
use crate::text::push_decimal;
use crate::text::signed_decimal;
use vstd::prelude::*;
use vstd::string::StringExecFns;

verus! {

/// The text next to a point: its id, and its marker in brackets where the
/// marker is not zero.
pub open spec fn point_label_text(id: nat, marker: int) -> Seq<char> {
    if marker != 0 {
        decimal(id) + seq!['('] + signed_decimal(marker) + seq![')']
    } else {
        decimal(id)
    }
}

/// The text inside a cell for its attribute: the attribute in square brackets.
pub open spec fn attribute_label_text(attribute: nat) -> Seq<char> {
    seq!['['] + decimal(attribute) + seq![']']
}

/// Returns the text of an id.
pub fn id_label(id: usize) -> (label: String)
    ensures
        label@ == decimal(id as nat),
{
    let mut label = String::new();
    push_decimal(&mut label, id as u128);
    assert(label@ =~= decimal(id as nat));
    label
}

/// Returns the text next to a point.
pub fn point_label(id: usize, marker: i32) -> (label: String)
    ensures
        label@ == point_label_text(id as nat, marker as int),
{
    let mut label = String::new();
    push_decimal(&mut label, id as u128);
    if marker != 0 {
        label.append("(");
        if marker < 0 {
            label.append("-");
            push_decimal(&mut label, (-(marker as i64)) as u128);
        } else {
            push_decimal(&mut label, marker as u128);
        }
        label.append(")");
    }
    proof {
        reveal_strlit("(");
        reveal_strlit(")");
        reveal_strlit("-");
    }
    assert(label@ =~= point_label_text(id as nat, marker as int));
    label
}

/// Returns the text inside a cell for its attribute.
pub fn attribute_label(attribute: usize) -> (label: String)
    ensures
        label@ == attribute_label_text(attribute as nat),
{
    let mut label = String::new();
    label.append("[");
    push_decimal(&mut label, attribute as u128);
    label.append("]");
    proof {
        reveal_strlit("[");
        reveal_strlit("]");
    }
    assert(label@ =~= attribute_label_text(attribute as nat));
    label
}

} // verus!

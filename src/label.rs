use vstd::prelude::*;

use crate::decimal::{decimal, lemma_decimal_injective};

verus! {

/// The separator between a base label and an instance key.
pub open spec fn separator() -> char {
    '-'
}

/// The label of a window instance: the base label itself for a
/// single-instance template, else `"{base}-{key}"`.
pub open spec fn instance_label(base: Seq<char>, allow_multiple: bool, key: nat) -> Seq<char> {
    if allow_multiple {
        base + seq![separator()] + decimal(key)
    } else {
        base
    }
}

/// The part of `label` before its first separator (all of it if it has
/// none).
pub open spec fn first_segment(label: Seq<char>) -> Seq<char>
    decreases label.len(),
{
    if label.len() == 0 {
        label
    } else if label[0] == separator() {
        Seq::empty()
    } else {
        seq![label[0]] + first_segment(label.drop_first())
    }
}

pub open spec fn has_separator(s: Seq<char>) -> bool {
    exists|i: int| 0 <= i < s.len() && s[i] == separator()
}

/// Where `label` has no separator before `i`, and one at `i` or ends there,
/// its first segment is what stands before `i`.
pub proof fn lemma_first_segment_at(label: Seq<char>, i: int)
    requires
        0 <= i <= label.len(),
        forall|j: int| 0 <= j < i ==> label[j] != separator(),
        i == label.len() || label[i] == separator(),
    ensures
        first_segment(label) == label.subrange(0, i),
    decreases i,
{
    if i == 0 {
        assert(label.subrange(0, 0) =~= Seq::<char>::empty());
    } else {
        let rest = label.drop_first();
        lemma_first_segment_at(rest, i - 1);
        assert(seq![label[0]] + rest.subrange(0, i - 1) =~= label.subrange(0, i));
    }
}

/// The label that a window was created under, read back from an instance
/// label: the part before the first `-`.
pub fn original_label(label: &str) -> (r: String)
    ensures
        r@ == first_segment(label@),
{
    let n = label.unicode_len();
    let mut i: usize = 0;
    while i < n
        invariant
            n == label@.len(),
            i <= n,
            forall|j: int| 0 <= j < i ==> label@[j] != separator(),
        ensures
            i <= n,
            forall|j: int| 0 <= j < i ==> label@[j] != separator(),
            i == n || label@[i as int] == separator(),
        decreases n - i,
    {
        if label.get_char(i) == '-' {
            break;
        }
        i = i + 1;
    }
    proof {
        lemma_first_segment_at(label@, i as int);
    }
    String::from_str(label.substring_char(0, i))
}

/// Reading the original label back from an instance label gives the base
/// label it was made from, for every key, as long as the base label holds
/// no `-` itself.
pub proof fn lemma_original_label_round_trip(base: Seq<char>, allow_multiple: bool, key: nat)
    requires
        !has_separator(base),
    ensures
        first_segment(instance_label(base, allow_multiple, key)) == base,
{
    let label = instance_label(base, allow_multiple, key);
    lemma_first_segment_at(label, base.len() as int);
    assert(label.subrange(0, base.len() as int) =~= base);
}

/// Two instances of one multi-instance template get the same label only
/// if they got the same key.
pub proof fn lemma_instance_labels_distinct(base: Seq<char>, k1: nat, k2: nat)
    requires
        k1 != k2,
    ensures
        instance_label(base, true, k1) != instance_label(base, true, k2),
{
    let l1 = instance_label(base, true, k1);
    let l2 = instance_label(base, true, k2);
    if l1 == l2 {
        let start = base.len() + 1;
        assert(l1.subrange(start as int, l1.len() as int) =~= decimal(k1));
        assert(l2.subrange(start as int, l2.len() as int) =~= decimal(k2));
        lemma_decimal_injective(k1, k2);
    }
}

} // verus!

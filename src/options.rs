//! Folding the options of a canonical lift or lower into one record.

use vstd::prelude::*;
use wasmparser::CanonicalOption;
use crate::ir::{CanonOpts, StringEncoding};

verus! {

/// The options before any entry is applied: UTF-8 strings, nothing else set.
pub open spec fn default_opts() -> CanonOpts {
    CanonOpts { string_encoding: StringEncoding::Utf8, memory: None, realloc: None, post_return: None }
}

/// One option entry applied to a record: it overwrites its own field.
pub open spec fn apply_option(o: CanonOpts, opt: CanonicalOption) -> CanonOpts {
    match opt {
        CanonicalOption::UTF8 => CanonOpts { string_encoding: StringEncoding::Utf8, ..o },
        CanonicalOption::UTF16 => CanonOpts { string_encoding: StringEncoding::Utf16, ..o },
        CanonicalOption::CompactUTF16 => CanonOpts { string_encoding: StringEncoding::Latin1OrUtf16, ..o },
        CanonicalOption::Memory(i) => CanonOpts { memory: Some(i), ..o },
        CanonicalOption::Realloc(i) => CanonOpts { realloc: Some(i), ..o },
        CanonicalOption::PostReturn(i) => CanonOpts { post_return: Some(i), ..o },
    }
}

/// The entries applied left to right to the default record.
pub open spec fn fold_options(s: Seq<CanonicalOption>) -> CanonOpts
    decreases s.len(),
{
    if s.len() == 0 {
        default_opts()
    } else {
        apply_option(fold_options(s.drop_last()), s.last())
    }
}

/// The four fields that option entries set.
#[derive(Clone, Copy, Debug, PartialEq, Eq)]
pub enum OptionKind {
    StringEncoding,
    Memory,
    Realloc,
    PostReturn,
}

/// The field that an entry sets.
pub open spec fn kind_of(opt: CanonicalOption) -> OptionKind {
    match opt {
        CanonicalOption::UTF8 | CanonicalOption::UTF16 | CanonicalOption::CompactUTF16 => OptionKind::StringEncoding,
        CanonicalOption::Memory(_) => OptionKind::Memory,
        CanonicalOption::Realloc(_) => OptionKind::Realloc,
        CanonicalOption::PostReturn(_) => OptionKind::PostReturn,
    }
}

/// Field `k` of `o`, with the other fields at their default.
pub open spec fn only(o: CanonOpts, k: OptionKind) -> CanonOpts {
    match k {
        OptionKind::StringEncoding => CanonOpts { string_encoding: o.string_encoding, ..default_opts() },
        OptionKind::Memory => CanonOpts { memory: o.memory, ..default_opts() },
        OptionKind::Realloc => CanonOpts { realloc: o.realloc, ..default_opts() },
        OptionKind::PostReturn => CanonOpts { post_return: o.post_return, ..default_opts() },
    }
}

/// In folded options, a field is what the last entry of its kind sets: an
/// earlier entry of that kind is overwritten, and entries of other kinds
/// leave it alone.
pub proof fn lemma_last_entry_wins(s: Seq<CanonicalOption>, k: OptionKind, i: int)
    requires
        0 <= i < s.len(),
        kind_of(s[i]) == k,
        forall|j: int| i < j < s.len() ==> kind_of(#[trigger] s[j]) != k,
    ensures
        only(fold_options(s), k) == only(apply_option(default_opts(), s[i]), k),
    decreases s.len(),
{
    if i < s.len() - 1 {
        let t = s.drop_last();
        assert forall|j: int| i < j < t.len() implies kind_of(#[trigger] t[j]) != k by {
            assert(t[j] == s[j]);
        }
        lemma_last_entry_wins(t, k, i);
        assert(kind_of(s[s.len() - 1]) != k);
    }
}

/// In folded options, a field that no entry sets keeps its default.
pub proof fn lemma_unset_field_keeps_default(s: Seq<CanonicalOption>, k: OptionKind)
    requires
        forall|j: int| 0 <= j < s.len() ==> kind_of(#[trigger] s[j]) != k,
    ensures
        only(fold_options(s), k) == only(default_opts(), k),
    decreases s.len(),
{
    if s.len() > 0 {
        let t = s.drop_last();
        assert forall|j: int| 0 <= j < t.len() implies kind_of(#[trigger] t[j]) != k by {
            assert(t[j] == s[j]);
        }
        lemma_unset_field_keeps_default(t, k);
        assert(kind_of(s[s.len() - 1]) != k);
    }
}

impl Default for CanonOpts {
    fn default() -> (r: Self)
        ensures
            r == default_opts(),
    {
        CanonOpts { string_encoding: StringEncoding::Utf8, memory: None, realloc: None, post_return: None }
    }
}

impl CanonOpts {
    /// Folds option entries left to right over the default record: each entry
    /// overwrites its field, so the last entry of each kind wins.
    pub fn from_iter(opts: &[CanonicalOption]) -> (r: CanonOpts)
        ensures
            r == fold_options(opts@),
    {
        let mut result = CanonOpts {
            string_encoding: StringEncoding::Utf8,
            memory: None,
            realloc: None,
            post_return: None,
        };
        let mut i: usize = 0;
        proof {
            assert(opts@.take(0) =~= seq![]);
        }
        while i < opts.len()
            invariant
                0 <= i <= opts@.len(),
                result == fold_options(opts@.take(i as int)),
            decreases opts@.len() - i,
        {
            proof {
                assert(opts@.take(i as int + 1).drop_last() =~= opts@.take(i as int));
            }
            match opts[i] {
                CanonicalOption::UTF8 => result.string_encoding = StringEncoding::Utf8,
                CanonicalOption::UTF16 => result.string_encoding = StringEncoding::Utf16,
                CanonicalOption::CompactUTF16 => result.string_encoding = StringEncoding::Latin1OrUtf16,
                CanonicalOption::Memory(index) => result.memory = Some(index),
                CanonicalOption::Realloc(index) => result.realloc = Some(index),
                CanonicalOption::PostReturn(index) => result.post_return = Some(index),
            }
            i = i + 1;
        }
        proof {
            assert(opts@.take(opts@.len() as int) =~= opts@);
        }
        result
    }
}

} // verus!

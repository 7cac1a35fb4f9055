//! The ignore policy over a listed file-name sequence: when any name looks
//! like a consolidated weights file in the modern format, names with a legacy
//! weight extension are skipped; otherwise nothing is skipped.

use vstd::prelude::*;
use vstd::string::StrSliceExecFns;

verus! {

/// A name in the modern single-file weights format: it starts with `model`
/// and ends with `.safetensors`.
pub open spec fn is_modern_weights(name: Seq<char>) -> bool {
    "model"@.is_prefix_of(name) && ".safetensors"@.is_suffix_of(name)
}

/// Whether any listed name is a modern consolidated weights file.
pub open spec fn any_modern_weights(files: Seq<Seq<char>>) -> bool {
    exists|i: int| 0 <= i < files.len() && is_modern_weights(files[i])
}

/// The ignore decision for one name: skipped exactly when a modern weights
/// file is present and the name matches `*.pt` or `*.bin`.
pub open spec fn ignored(name: Seq<char>, has_modern_weights: bool) -> bool {
    has_modern_weights && (".pt"@.is_suffix_of(name) || ".bin"@.is_suffix_of(name))
}

/// The names that survive the ignore decision taken with `has_modern`, in
/// their listed order.
pub open spec fn kept_with(files: Seq<Seq<char>>, has_modern: bool) -> Seq<Seq<char>>
    decreases files.len(),
{
    if files.len() == 0 {
        Seq::empty()
    } else {
        let init = kept_with(files.drop_last(), has_modern);
        if ignored(files.last(), has_modern) {
            init
        } else {
            init.push(files.last())
        }
    }
}

/// The names that survive the whole policy: the modern-weights flag is read
/// off the full sequence, then each name is kept or skipped by it.
pub open spec fn kept_files(files: Seq<Seq<char>>) -> Seq<Seq<char>> {
    kept_with(files, any_modern_weights(files))
}

/// Whether `prefix@` is a prefix of `s@`, compared character by character.
fn str_has_prefix(s: &str, prefix: &str) -> (r: bool)
    ensures
        r == prefix@.is_prefix_of(s@),
{
    let n = s.unicode_len();
    let m = prefix.unicode_len();
    if m > n {
        return false;
    }
    let mut i: usize = 0;
    while i < m
        invariant
            m <= n,
            n == s@.len(),
            m == prefix@.len(),
            i <= m,
            forall|j: int| 0 <= j < i ==> s@[j] == prefix@[j],
        decreases m - i,
    {
        if s.get_char(i) != prefix.get_char(i) {
            proof {
                assert(s@.subrange(0, m as int)[i as int] != prefix@[i as int]);
            }
            return false;
        }
        i += 1;
    }
    proof {
        assert(prefix@ =~= s@.subrange(0, m as int));
    }
    true
}

/// Whether `suffix@` is a suffix of `s@`, compared character by character.
fn str_has_suffix(s: &str, suffix: &str) -> (r: bool)
    ensures
        r == suffix@.is_suffix_of(s@),
{
    let n = s.unicode_len();
    let m = suffix.unicode_len();
    if m > n {
        return false;
    }
    let offset = n - m;
    let mut i: usize = 0;
    while i < m
        invariant
            m <= n,
            n == s@.len(),
            m == suffix@.len(),
            offset == n - m,
            i <= m,
            forall|j: int| 0 <= j < i ==> s@[offset + j] == suffix@[j],
        decreases m - i,
    {
        if s.get_char(offset + i) != suffix.get_char(i) {
            proof {
                assert(s@.subrange(n - m, n as int)[i as int] != suffix@[i as int]);
            }
            return false;
        }
        i += 1;
    }
    proof {
        assert(forall|k: int|
            0 <= k < m ==> #[trigger] s@.subrange(n - m, n as int)[k] == s@[offset + k]);
        assert(suffix@ =~= s@.subrange(n - m, n as int));
    }
    true
}

/// Relies on glob::Pattern: `Pattern::new` parses the pattern, and `matches`
/// uses the default options, under which `*` matches any (possibly empty)
/// character sequence, so `*.pt` and `*.bin` match exactly the names with
/// that suffix.
#[verifier::external_body]
fn glob_pattern_matches(pattern: &str, name: &str) -> (r: Option<bool>)
    ensures
        pattern@ == "*.pt"@ ==> r == Some(".pt"@.is_suffix_of(name@)),
        pattern@ == "*.bin"@ ==> r == Some(".bin"@.is_suffix_of(name@)),
{
    match glob::Pattern::new(pattern) {
        Ok(p) => Some(p.matches(name)),
        Err(_) => None,
    }
}

/// The ignore decision for one listed name, given whether the listing holds
/// a modern consolidated weights file.
pub fn should_ignore_file(filename: &str, has_safetensors: bool) -> (r: bool)
    ensures
        r == ignored(filename@, has_safetensors),
{
    if !has_safetensors {
        return false;
    }
    let pt = glob_pattern_matches("*.pt", filename);
    let bin = glob_pattern_matches("*.bin", filename);
    pt.unwrap() || bin.unwrap()
}

/// Whether any of `files` is a modern consolidated weights file.
pub fn has_modern_weights(files: &Vec<String>) -> (r: bool)
    ensures
        r == any_modern_weights(files.deep_view()),
{
    let mut i: usize = 0;
    while i < files.len()
        invariant
            i <= files@.len(),
            forall|j: int| 0 <= j < i ==> !is_modern_weights(files.deep_view()[j]),
        decreases files@.len() - i,
    {
        let starts = str_has_prefix(files[i].as_str(), "model");
        let ends = str_has_suffix(files[i].as_str(), ".safetensors");
        if starts && ends {
            proof {
                assert(is_modern_weights(files.deep_view()[i as int]));
            }
            return true;
        }
        i += 1;
    }
    false
}

/// Applies the whole policy to a listed sequence: reads the modern-weights
/// flag off it, then keeps exactly the names the policy does not skip, in
/// their listed order.
pub fn filter_files(files: &Vec<String>) -> (r: Vec<String>)
    ensures
        r.deep_view() == kept_files(files.deep_view()),
{
    let has_modern = has_modern_weights(files);
    let mut out: Vec<String> = Vec::new();
    proof {
        assert(files.deep_view().take(0) =~= Seq::<Seq<char>>::empty());
        assert(out.deep_view() =~= kept_with(files.deep_view().take(0), has_modern));
    }
    let mut i: usize = 0;
    while i < files.len()
        invariant
            i <= files@.len(),
            has_modern == any_modern_weights(files.deep_view()),
            out.deep_view() == kept_with(files.deep_view().take(i as int), has_modern),
        decreases files@.len() - i,
    {
        let ghost prev = out.deep_view();
        if !should_ignore_file(files[i].as_str(), has_modern) {
            out.push(files[i].clone());
            proof {
                assert(out.deep_view() =~= prev.push(files.deep_view()[i as int]));
            }
        }
        proof {
            let fv = files.deep_view();
            assert(fv.take(i + 1).drop_last() =~= fv.take(i as int));
            assert(fv.take(i + 1).last() == fv[i as int]);
            assert(out.deep_view() =~= kept_with(fv.take(i + 1), has_modern));
        }
        i += 1;
    }
    proof {
        assert(files.deep_view().take(files@.len() as int) =~= files.deep_view());
    }
    out
}

/// A name is among the kept ones exactly when it was listed and the ignore
/// decision does not skip it.
pub proof fn lemma_kept_membership(files: Seq<Seq<char>>, has_modern: bool, name: Seq<char>)
    ensures
        kept_with(files, has_modern).contains(name) <==> files.contains(name) && !ignored(
            name,
            has_modern,
        ),
    decreases files.len(),
{
    if files.len() > 0 {
        lemma_kept_membership(files.drop_last(), has_modern, name);
        assert(files.contains(name) <==> files.drop_last().contains(name) || files.last() == name)
            by {
            if files.contains(name) {
                let i = choose|i: int| 0 <= i < files.len() && files[i] == name;
                if i < files.len() - 1 {
                    assert(files.drop_last()[i] == name);
                }
            }
            if files.drop_last().contains(name) {
                let i = choose|i: int|
                    0 <= i < files.drop_last().len() && files.drop_last()[i] == name;
                assert(files[i] == name);
            }
        }
        let init = kept_with(files.drop_last(), has_modern);
        if !ignored(files.last(), has_modern) {
            assert(kept_with(files, has_modern) == init.push(files.last()));
            assert(init.push(files.last()).contains(name) <==> init.contains(name) || files.last()
                == name) by {
                if init.push(files.last()).contains(name) {
                    let i = choose|i: int|
                        0 <= i < init.push(files.last()).len() && init.push(files.last())[i]
                            == name;
                    if i < init.len() {
                        assert(init[i] == name);
                    }
                }
                if init.contains(name) {
                    let i = choose|i: int| 0 <= i < init.len() && init[i] == name;
                    assert(init.push(files.last())[i] == name);
                }
                if files.last() == name {
                    assert(init.push(files.last())[init.len() as int] == name);
                }
            }
        }
    }
}

/// A modern-format weights name is never ignored: its `.safetensors` ending
/// rules out both legacy weight extensions.
pub proof fn lemma_safetensors_never_ignored(name: Seq<char>, has_modern: bool)
    requires
        ".safetensors"@.is_suffix_of(name),
    ensures
        !ignored(name, has_modern),
{
    reveal_strlit(".safetensors");
    reveal_strlit(".pt");
    reveal_strlit(".bin");
    let n = name.len() as int;
    assert(".safetensors"@ =~= name.subrange(n - 12, n));
    assert(name[n - 1] == name.subrange(n - 12, n)[11]);
    assert(name[n - 1] == 's');
    if ".pt"@.is_suffix_of(name) {
        assert(".pt"@ =~= name.subrange(n - 3, n));
        assert(name[n - 1] == name.subrange(n - 3, n)[2]);
        assert(name[n - 1] == 't');
    }
    if ".bin"@.is_suffix_of(name) {
        assert(".bin"@ =~= name.subrange(n - 4, n));
        assert(name[n - 1] == name.subrange(n - 4, n)[3]);
        assert(name[n - 1] == 'n');
    }
}

/// When some listed name is a modern consolidated weights file, no name with
/// a legacy weight extension survives the filter.
pub proof fn lemma_legacy_weights_dropped(files: Seq<Seq<char>>, name: Seq<char>)
    requires
        any_modern_weights(files),
        ".pt"@.is_suffix_of(name) || ".bin"@.is_suffix_of(name),
    ensures
        !kept_files(files).contains(name),
{
    lemma_kept_membership(files, any_modern_weights(files), name);
}

/// Every listed `.safetensors` name survives the filter, whatever else was
/// listed beside it.
pub proof fn lemma_safetensors_kept(files: Seq<Seq<char>>, name: Seq<char>)
    requires
        files.contains(name),
        ".safetensors"@.is_suffix_of(name),
    ensures
        kept_files(files).contains(name),
{
    lemma_safetensors_never_ignored(name, any_modern_weights(files));
    lemma_kept_membership(files, any_modern_weights(files), name);
}

/// With no modern weights file in the listing, the ignore decision skips
/// nothing at all.
pub proof fn lemma_no_modern_weights_keeps_all(files: Seq<Seq<char>>)
    requires
        !any_modern_weights(files),
    ensures
        kept_files(files) == files,
{
    lemma_kept_with_nothing_ignored(files, false);
}

/// The filter with the modern-weights flag off is the identity.
proof fn lemma_kept_with_nothing_ignored(files: Seq<Seq<char>>, has_modern: bool)
    requires
        !has_modern,
    ensures
        kept_with(files, has_modern) == files,
    decreases files.len(),
{
    if files.len() == 0 {
        assert(kept_with(files, has_modern) =~= files);
    } else {
        lemma_kept_with_nothing_ignored(files.drop_last(), has_modern);
        assert(files.drop_last().push(files.last()) =~= files);
    }
}

} // verus!

//! Temporary artifact store: names a fresh, collision-resistant file path
//! inside the OS temporary directory for each job's rendered document.

use vstd::prelude::*;
use vstd::string::StringExecFns;
use rand::Rng;

verus! {

/// Length of the random suffix in every temporary artifact name.
pub const SUFFIX_LEN: usize = 7;

/// True of every character that rand's `Alphanumeric` distribution yields.
pub open spec fn is_alnum_char(c: char) -> bool {
    ('a' <= c && c <= 'z') || ('A' <= c && c <= 'Z') || ('0' <= c && c <= '9')
}

/// The characters of a temporary artifact path: the temporary directory, a
/// separator, the fixed stem, a suffix, and the extension.
pub open spec fn temp_path_of(dir: Seq<char>, suffix: Seq<char>) -> Seq<char> {
    dir + "/output_"@ + suffix + ".pdf"@
}

/// A path the store may hand a job: built from `dir` and some alphanumeric
/// suffix of the fixed length.
pub open spec fn is_temp_path_in(dir: Seq<char>, p: Seq<char>) -> bool {
    exists|suffix: Seq<char>|
        suffix.len() == SUFFIX_LEN && (forall|i: int|
            0 <= i < suffix.len() ==> is_alnum_char(suffix[i])) && p == #[trigger] temp_path_of(
            dir,
            suffix,
        )
}

/// Relies on rand's `thread_rng` sampling the `Alphanumeric` distribution:
/// each sampled value is an ASCII letter or digit, and exactly `length` of
/// them are collected. The result is random, so nothing else is promised
/// of it.
#[verifier::external_body]
fn random_string(length: usize) -> (r: String)
    ensures
        r@.len() == length,
        forall|i: int| 0 <= i < r@.len() ==> is_alnum_char(r@[i]),
{
    rand::thread_rng().sample_iter(&rand::distributions::Alphanumeric).take(length).map(
        char::from,
    ).collect()
}

/// Name a fresh temporary artifact inside `temp_dir`: the fixed stem with a
/// random alphanumeric suffix of the fixed length.
pub fn get_temporary_file_path(temp_dir: &str) -> (r: String)
    ensures
        is_temp_path_in(temp_dir@, r@),
{
    let suffix = random_string(SUFFIX_LEN);
    let mut p = temp_dir.to_owned();
    p.append("/output_");
    p.append(suffix.as_str());
    p.append(".pdf");
    proof {
        assert(p@ == temp_path_of(temp_dir@, suffix@));
    }
    p
}

/// Law: the path builder is injective in the suffix, so two jobs collide
/// only if their random suffixes collide.
pub proof fn lemma_temp_path_injective(dir: Seq<char>, s1: Seq<char>, s2: Seq<char>)
    requires
        s1.len() == s2.len(),
        temp_path_of(dir, s1) == temp_path_of(dir, s2),
    ensures
        s1 == s2,
{
    let stem = "/output_"@;
    let base = dir + stem;
    assert forall|i: int| 0 <= i < s1.len() implies s1[i] == s2[i] by {
        assert(temp_path_of(dir, s1)[base.len() + i] == s1[i]);
        assert(temp_path_of(dir, s2)[base.len() + i] == s2[i]);
    }
    assert(s1 =~= s2);
}

} // verus!

//! Resolving a file name to its alternate.
//!
//! The search key of a file name is the text of the group `p` of the rule's
//! strip pattern, or the whole name where that group takes no text. The
//! fuzzy matcher, outside this library, ranks the project's files against the
//! key; the alternate is the first ranked file whose test classification
//! differs from that of the given file.

use vstd::prelude::*;

use crate::config::{opt_view, AppConfig, FiletypeConfig};
use crate::lines::{lines_of, names_of, split_lines};
use crate::pattern::{is_piece_of, regex_is_match, regex_named_group};

verus! {

/// The search key, given the text that the group `p` took, if any.
pub open spec fn key_from(group: Option<Seq<char>>, filename: Seq<char>) -> Seq<char> {
    match group {
        Some(g) => if g.len() > 0 {
            g
        } else {
            filename
        },
        None => filename,
    }
}

/// The search key that a strip pattern gives for a file name.
pub open spec fn key_of(strip: Seq<char>, filename: Seq<char>) -> Seq<char> {
    key_from(regex_named_group(strip, filename, seq!['p']), filename)
}

/// Whether a file name is a test file under a classification pattern.
pub open spec fn is_test_of(is_test: Seq<char>, filename: Seq<char>) -> bool {
    regex_is_match(is_test, filename)
}

/// Whether `candidate` is of the other kind than `origin`.
pub open spec fn is_opposite(is_test: Seq<char>, origin: Seq<char>, candidate: Seq<char>) -> bool {
    is_test_of(is_test, candidate) != is_test_of(is_test, origin)
}

/// The first of `ranked` that is of the other kind than `origin`.
pub open spec fn first_opposite(
    is_test: Seq<char>,
    origin: Seq<char>,
    ranked: Seq<Seq<char>>,
) -> Option<Seq<char>>
    decreases ranked.len(),
{
    if ranked.len() == 0 {
        None
    } else if is_opposite(is_test, origin, ranked[0]) {
        Some(ranked[0])
    } else {
        first_opposite(is_test, origin, ranked.drop_first())
    }
}

/// The search key, given the text that the group `p` took in the file name:
/// that text, or the file name where there is none or it is empty.
pub fn choose_key(group: Option<String>, filename: &String) -> (r: String)
    ensures
        r@ == key_from(opt_view(group), filename@),
{
    match group {
        Some(g) => if g.as_str().is_empty() {
            filename.clone()
        } else {
            g
        },
        None => filename.clone(),
    }
}

/// The place of the first classification that differs from `origin`, or
/// `None` where all agree with it.
pub fn first_of_other_kind(origin: bool, kinds: &Vec<bool>) -> (r: Option<usize>)
    ensures
        r matches Some(i) ==> i < kinds@.len() && kinds@[i as int] != origin && forall|j: int|
            0 <= j < i ==> kinds@[j] == origin,
        r is None ==> forall|j: int| 0 <= j < kinds@.len() ==> kinds@[j] == origin,
{
    let mut i: usize = 0;
    while i < kinds.len()
        invariant
            i <= kinds@.len(),
            forall|j: int| 0 <= j < i ==> kinds@[j] == origin,
        decreases kinds@.len() - i,
    {
        if kinds[i] != origin {
            return Some(i);
        }
        i += 1;
    }
    None
}

/// Why an alternate cannot be looked for.
#[derive(Clone, Debug)]
pub enum ResolveError {
    /// The rule table has no rule of this name.
    UnknownFiletype(String),
}

/// A file name together with the rule of its filetype.
pub struct Alternate {
    pub filename: String,
    pub rule: FiletypeConfig,
}

impl Alternate {
    /// Takes the rule of `filetype` from `config`; fails exactly where the
    /// table has no rule of that name.
    pub fn new(config: &AppConfig, filetype: String, filename: String) -> (r: Result<
        Alternate,
        ResolveError,
    >)
        ensures
            r is Err <==> forall|i: int| 0 <= i < config@.len() ==> #[trigger] config@[i].0 != filetype@,
            r matches Err(ResolveError::UnknownFiletype(t)) ==> t@ == filetype@,
            r matches Ok(a) ==> a.filename@ == filename@ && forall|i: int|
                0 <= i < config@.len() && #[trigger] config@[i].0 == filetype@ ==> config@[i].1
                    == a.rule.is_test@ && config@[i].2 == a.rule.strip@,
    {
        match config.get_filetype_config(&filetype) {
            Some(rule) => Ok(Alternate { filename, rule: rule.clone() }),
            None => Err(ResolveError::UnknownFiletype(filetype)),
        }
    }

    /// The search key of the file name: the text of the group `p` of the
    /// strip pattern, or the whole name where that group takes no text.
    pub fn strip_filename(&self) -> (r: String)
        ensures
            r@ == key_of(self.rule.strip@, self.filename@),
            is_piece_of(r@, self.filename@),
    {
        proof {
            reveal_strlit("p");
            assert("p"@ =~= seq!['p']);
        }
        let group = self.rule.strip.named_group(self.filename.as_str(), "p");
        let ghost g = opt_view(group);
        let key = choose_key(group, &self.filename);
        proof {
            if key@ == self.filename@ {
                assert(self.filename@.subrange(0, 0 + key@.len() as int) =~= self.filename@);
            } else {
                assert(key@ == g->Some_0);
            }
        }
        key
    }

    /// Whether `filename` is a test file under the rule.
    pub fn is_test(&self, filename: &str) -> (r: bool)
        ensures
            r == is_test_of(self.rule.is_test@, filename@),
    {
        self.rule.is_test.is_match(filename)
    }

    /// The first of the ranked file names whose test classification differs
    /// from that of the file name, if there is one.
    pub fn select_alternate(&self, ranked: &Vec<String>) -> (r: Option<String>)
        ensures
            opt_view(r) == first_opposite(self.rule.is_test@, self.filename@, names_of(ranked@)),
    {
        let origin = self.is_test(self.filename.as_str());
        let ghost names = names_of(ranked@);
        let mut kinds: Vec<bool> = Vec::new();
        let mut k: usize = 0;
        while k < ranked.len()
            invariant
                k <= ranked@.len(),
                names == names_of(ranked@),
                kinds@.len() == k,
                forall|j: int| 0 <= j < k ==> kinds@[j] == is_test_of(self.rule.is_test@, #[trigger] names[j]),
            decreases ranked@.len() - k,
        {
            kinds.push(self.is_test(ranked[k].as_str()));
            k += 1;
        }
        proof {
            lemma_selected_is_opposite(self.rule.is_test@, self.filename@, names);
            lemma_selected_is_earliest(self.rule.is_test@, self.filename@, names);
        }
        match first_of_other_kind(origin, &kinds) {
            Some(i) => {
                proof {
                    assert(is_opposite(self.rule.is_test@, self.filename@, names[i as int]));
                    let s = first_opposite(self.rule.is_test@, self.filename@, names)->Some_0;
                    let w = choose|w: int|
                        0 <= w < names.len() && names[w] == s && forall|j: int|
                            0 <= j < w ==> !is_opposite(self.rule.is_test@, self.filename@, #[trigger] names[j]);
                    if w < i {
                        assert(kinds@[w] == origin);
                    }
                    assert(!(w > i));
                }
                Some(ranked[i].clone())
            },
            None => {
                proof {
                    assert forall|j: int| 0 <= j < names.len() implies !is_opposite(
                        self.rule.is_test@,
                        self.filename@,
                        #[trigger] names[j],
                    ) by {
                        assert(kinds@[j] == origin);
                    }
                }
                None
            },
        }
    }

    /// The alternate among the output of the fuzzy matcher: its non-empty
    /// lines are the ranked file names, best first.
    pub fn get_alternate_file(&self, files: &str) -> (r: Option<String>)
        ensures
            opt_view(r) == first_opposite(self.rule.is_test@, self.filename@, lines_of(files@)),
    {
        let ranked = split_lines(files);
        self.select_alternate(&ranked)
    }
}

/// Extracting the key twice from one file name under one strip pattern gives
/// the same key: the key depends on the pattern and the name alone.
pub proof fn lemma_key_deterministic(strip: Seq<char>, filename: Seq<char>, first: Seq<char>, second: Seq<char>)
    requires
        first == key_of(strip, filename),
        second == key_of(strip, filename),
    ensures
        first == second,
{
}

/// Where the strip pattern yields no text for the group `p`, the key is the
/// file name itself.
pub proof fn lemma_key_fallback(strip: Seq<char>, filename: Seq<char>)
    requires
        !(regex_named_group(strip, filename, seq!['p']) matches Some(g) && g.len() > 0),
    ensures
        key_of(strip, filename) == filename,
{
}

/// A file name that the classification pattern does not match is no test
/// file.
pub proof fn lemma_unmatched_is_not_test(is_test: Seq<char>, filename: Seq<char>)
    requires
        !regex_is_match(is_test, filename),
    ensures
        !is_test_of(is_test, filename),
{
}

/// A selected alternate is always of the other kind than the file it was
/// selected for.
pub proof fn lemma_selected_is_opposite(is_test: Seq<char>, origin: Seq<char>, ranked: Seq<Seq<char>>)
    ensures
        first_opposite(is_test, origin, ranked) matches Some(s) ==> is_test_of(is_test, s)
            != is_test_of(is_test, origin),
    decreases ranked.len(),
{
    if ranked.len() > 0 && !is_opposite(is_test, origin, ranked[0]) {
        lemma_selected_is_opposite(is_test, origin, ranked.drop_first());
    }
}

/// The selected alternate is the earliest ranked file of the other kind: it
/// stands at some place in the ranking, and no file before it is of the other
/// kind. Nothing is selected exactly when no ranked file is of the other kind.
pub proof fn lemma_selected_is_earliest(is_test: Seq<char>, origin: Seq<char>, ranked: Seq<Seq<char>>)
    ensures
        first_opposite(is_test, origin, ranked) matches Some(s) ==> exists|i: int|
            0 <= i < ranked.len() && ranked[i] == s && forall|j: int|
                0 <= j < i ==> !is_opposite(is_test, origin, #[trigger] ranked[j]),
        first_opposite(is_test, origin, ranked) is None <==> forall|i: int|
            0 <= i < ranked.len() ==> !is_opposite(is_test, origin, #[trigger] ranked[i]),
    decreases ranked.len(),
{
    if ranked.len() > 0 {
        if is_opposite(is_test, origin, ranked[0]) {
            assert(ranked[0] == ranked[0] && forall|j: int|
                0 <= j < 0 ==> !is_opposite(is_test, origin, #[trigger] ranked[j]));
        } else {
            let rest = ranked.drop_first();
            lemma_selected_is_earliest(is_test, origin, rest);
            if first_opposite(is_test, origin, rest) is Some {
                let k = choose|k: int|
                    0 <= k < rest.len() && rest[k] == first_opposite(is_test, origin, rest)->Some_0
                        && forall|j: int| 0 <= j < k ==> !is_opposite(is_test, origin, #[trigger] rest[j]);
                assert forall|j: int| 0 <= j < k + 1 implies !is_opposite(is_test, origin, #[trigger] ranked[j]) by {
                    if j > 0 {
                        assert(ranked[j] == rest[j - 1]);
                    }
                }
                assert(ranked[k + 1] == rest[k]);
            } else {
                assert forall|i: int| 0 <= i < ranked.len() implies !is_opposite(is_test, origin, #[trigger] ranked[i]) by {
                    if i > 0 {
                        assert(ranked[i] == rest[i - 1]);
                    }
                }
            }
        }
    }
}

} // verus!

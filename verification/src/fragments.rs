//! Highlight fragments: where the terms of a query occur in a document.
//!
//! The search engine hands back the tokens of a stored text, each with its
//! byte offsets. A fragment list gathers, for every query term that occurs,
//! the offsets of its occurrences in the order of the token stream.

use crate::model::views;
use std::ops::Range;
use vstd::prelude::*;

verus! {

/// A token of an analysed text with the half-open byte range it was cut from.
#[derive(Debug)]
pub struct TextToken {
    pub text: String,
    pub offset_from: usize,
    pub offset_to: usize,
}

/// The model of a [`TextToken`].
pub struct TokenView {
    pub text: Seq<char>,
    pub offset_from: usize,
    pub offset_to: usize,
}

impl View for TextToken {
    type V = TokenView;

    open spec fn view(&self) -> TokenView {
        TokenView { text: self.text@, offset_from: self.offset_from, offset_to: self.offset_to }
    }
}

impl TokenView {
    /// The byte range of the token.
    pub open spec fn range(self) -> Range<usize> {
        Range { start: self.offset_from, end: self.offset_to }
    }
}

/// The occurrences of one term in a document.
#[derive(Debug)]
pub struct TermFragments {
    pub term: String,
    pub ranges: Vec<Range<usize>>,
}

/// The model of a [`TermFragments`].
pub struct FragmentsView {
    pub term: Seq<char>,
    pub ranges: Seq<Range<usize>>,
}

impl View for TermFragments {
    type V = FragmentsView;

    open spec fn view(&self) -> FragmentsView {
        FragmentsView { term: self.term@, ranges: self.ranges@ }
    }
}

/// The ranges of the tokens whose text is `term`, in stream order.
pub open spec fn occurrences(tokens: Seq<TokenView>, term: Seq<char>) -> Seq<Range<usize>>
    decreases tokens.len(),
{
    if tokens.len() == 0 {
        Seq::empty()
    } else {
        let before = occurrences(tokens.drop_last(), term);
        if tokens.last().text == term {
            before.push(tokens.last().range())
        } else {
            before
        }
    }
}

/// The terms that occur among the tokens, each once, in the order in which
/// they first occur.
pub open spec fn matched_terms(tokens: Seq<TokenView>, terms: Seq<Seq<char>>) -> Seq<Seq<char>>
    decreases tokens.len(),
{
    if tokens.len() == 0 {
        Seq::empty()
    } else {
        let before = matched_terms(tokens.drop_last(), terms);
        let text = tokens.last().text;
        if terms.contains(text) && !before.contains(text) {
            before.push(text)
        } else {
            before
        }
    }
}

/// The fragment list of a token stream: one entry for each matched term, with
/// all of its occurrences.
pub open spec fn fragments_of(tokens: Seq<TokenView>, terms: Seq<Seq<char>>) -> Seq<FragmentsView> {
    let matched = matched_terms(tokens, terms);
    Seq::new(
        matched.len(),
        |i: int| FragmentsView { term: matched[i], ranges: occurrences(tokens, matched[i]) },
    )
}

/// Every matched term is one of the terms asked for.
pub proof fn lemma_matched_are_terms(tokens: Seq<TokenView>, terms: Seq<Seq<char>>)
    ensures
        forall|i: int|
            0 <= i < matched_terms(tokens, terms).len() ==> terms.contains(
                #[trigger] matched_terms(tokens, terms)[i],
            ),
    decreases tokens.len(),
{
    if tokens.len() > 0 {
        lemma_matched_are_terms(tokens.drop_last(), terms);
        let before = matched_terms(tokens.drop_last(), terms);
        assert forall|i: int| 0 <= i < matched_terms(tokens, terms).len() implies terms.contains(
            #[trigger] matched_terms(tokens, terms)[i],
        ) by {
            if i < before.len() {
                assert(matched_terms(tokens, terms)[i] == before[i]);
            }
        }
    }
}

/// No term is matched twice.
pub proof fn lemma_matched_distinct(tokens: Seq<TokenView>, terms: Seq<Seq<char>>)
    ensures
        matched_terms(tokens, terms).no_duplicates(),
    decreases tokens.len(),
{
    if tokens.len() > 0 {
        lemma_matched_distinct(tokens.drop_last(), terms);
        let before = matched_terms(tokens.drop_last(), terms);
        let now = matched_terms(tokens, terms);
        assert forall|i: int, j: int|
            0 <= i < now.len() && 0 <= j < now.len() && i != j implies now[i] != now[j] by {
            if i < before.len() {
                assert(now[i] == before[i]);
            }
            if j < before.len() {
                assert(now[j] == before[j]);
            }
        }
    }
}

/// A term occurs among the tokens exactly if it is asked for and matched.
pub proof fn lemma_matched_iff_occurs(
    tokens: Seq<TokenView>,
    terms: Seq<Seq<char>>,
    term: Seq<char>,
)
    ensures
        matched_terms(tokens, terms).contains(term) <==> terms.contains(term) && occurrences(
            tokens,
            term,
        ).len() > 0,
    decreases tokens.len(),
{
    if tokens.len() > 0 {
        let rest = tokens.drop_last();
        lemma_matched_iff_occurs(rest, terms, term);
        let before = matched_terms(rest, terms);
        let text = tokens.last().text;
        if terms.contains(text) && !before.contains(text) {
            let now = before.push(text);
            assert(now[before.len() as int] == text);
            assert(forall|i: int| 0 <= i < before.len() ==> now[i] == before[i]);
        }
    }
}

/// Whether `text` is one of `terms`.
pub fn contains_term(terms: &Vec<String>, text: &String) -> (found: bool)
    ensures
        found == views(terms@).contains(text@),
{
    let mut i: usize = 0;
    while i < terms.len()
        invariant
            i <= terms.len(),
            forall|j: int| 0 <= j < i ==> views(terms@)[j] != text@,
        decreases terms.len() - i,
    {
        if terms[i] == *text {
            assert(views(terms@)[i as int] == text@);
            return true;
        }
        i += 1;
    }
    false
}

/// The models of terms of which some are no text.
pub open spec fn term_views(terms: Seq<Option<String>>) -> Seq<Option<Seq<char>>> {
    terms.map_values(
        |term: Option<String>|
            match term {
                Some(text) => Some(text@),
                None => None,
            },
    )
}

/// The texts among the terms, each once, in the order in which they first
/// come.
pub open spec fn texts_of(terms: Seq<Option<Seq<char>>>) -> Seq<Seq<char>>
    decreases terms.len(),
{
    if terms.len() == 0 {
        Seq::empty()
    } else {
        let before = texts_of(terms.drop_last());
        match terms.last() {
            Some(text) => if before.contains(text) {
                before
            } else {
                before.push(text)
            },
            None => before,
        }
    }
}

/// The term set of a query: the texts of its terms, each once.
pub fn term_set(terms: &Vec<Option<String>>) -> (texts: Vec<String>)
    ensures
        views(texts@) == texts_of(term_views(terms@)),
{
    let mut texts: Vec<String> = Vec::new();
    let mut i: usize = 0;
    while i < terms.len()
        invariant
            i <= terms.len(),
            views(texts@) == texts_of(term_views(terms@).take(i as int)),
        decreases terms.len() - i,
    {
        proof {
            let next = term_views(terms@).take(i + 1);
            assert(next.drop_last() == term_views(terms@).take(i as int));
            assert(next.last() == term_views(terms@)[i as int]);
        }
        match &terms[i] {
            Some(text) => {
                if !contains_term(&texts, text) {
                    texts.push(text.clone());
                    proof {
                        assert(views(texts@) =~= texts_of(term_views(terms@).take(i + 1)));
                    }
                }
            },
            None => {},
        }
        i += 1;
    }
    proof {
        assert(term_views(terms@).take(terms.len() as int) == term_views(terms@));
    }
    texts
}

/// The position of the entry for `text` among `fragments`, if there is one.
fn find_entry(fragments: &Vec<TermFragments>, text: &String) -> (at: Option<usize>)
    ensures
        match at {
            Some(i) => i < fragments.len() && fragments[i as int].term@ == text@,
            None => forall|j: int| 0 <= j < fragments.len() ==> fragments[j].term@ != text@,
        },
{
    let mut i: usize = 0;
    while i < fragments.len()
        invariant
            i <= fragments.len(),
            forall|j: int| 0 <= j < i ==> fragments[j].term@ != text@,
        decreases fragments.len() - i,
    {
        if fragments[i].term == *text {
            return Some(i);
        }
        i += 1;
    }
    None
}

/// Gathers the fragments of a token stream: for every token whose text is one
/// of `terms`, its byte range joins the list of that term, in stream order.
/// Terms come out in the order of their first occurrence, and a term that
/// never occurs has no entry.
pub fn collect_fragments(tokens: &Vec<TextToken>, terms: &Vec<String>) -> (fragments: Vec<
    TermFragments,
>)
    ensures
        views(fragments@) == fragments_of(views(tokens@), views(terms@)),
{
    let mut fragments: Vec<TermFragments> = Vec::new();
    let mut k: usize = 0;
    while k < tokens.len()
        invariant
            k <= tokens.len(),
            views(fragments@) == fragments_of(views(tokens@).take(k as int), views(terms@)),
        decreases tokens.len() - k,
    {
        let ghost seen = views(tokens@).take(k as int);
        let ghost next = views(tokens@).take(k + 1);
        let ghost wanted = views(terms@);
        let ghost old_fragments = views(fragments@);
        let token = &tokens[k];
        proof {
            assert(next.drop_last() == seen);
            assert(next.last() == token@);
            assert(old_fragments.len() == matched_terms(seen, wanted).len());
            assert(forall|i: int|
                0 <= i < old_fragments.len() ==> old_fragments[i] == fragments_of(seen, wanted)[i]);
            lemma_matched_are_terms(seen, wanted);
            lemma_matched_distinct(seen, wanted);
            lemma_matched_iff_occurs(seen, wanted, token.text@);
        }
        if contains_term(terms, &token.text) {
            let range = Range { start: token.offset_from, end: token.offset_to };
            match find_entry(&fragments, &token.text) {
                Some(at) => {
                    let mut entry = fragments[at].clone_entry();
                    entry.ranges.push(range);
                    fragments.set(at, entry);
                    proof {
                        let matched = matched_terms(seen, wanted);
                        assert(old_fragments[at as int].term == token.text@);
                        assert(matched[at as int] == token.text@);
                        assert(matched.contains(token.text@));
                        assert(matched_terms(next, wanted) == matched);
                        assert forall|i: int| 0 <= i < matched.len() implies #[trigger] views(
                            fragments@,
                        )[i] == fragments_of(next, wanted)[i] by {
                            if i != at {
                                assert(matched[i] != matched[at as int]);
                                assert(views(fragments@)[i] == old_fragments[i]);
                            }
                        }
                    }
                },
                None => {
                    let mut ranges: Vec<Range<usize>> = Vec::new();
                    ranges.push(range);
                    fragments.push(TermFragments { term: token.text.clone(), ranges });
                    proof {
                        let matched = matched_terms(seen, wanted);
                        assert(!matched.contains(token.text@)) by {
                            if matched.contains(token.text@) {
                                let j = choose|j: int|
                                    0 <= j < matched.len() && matched[j] == token.text@;
                                assert(old_fragments[j].term == token.text@);
                            }
                        }
                        assert(matched_terms(next, wanted) == matched.push(token.text@));
                        assert(occurrences(seen, token.text@).len() == 0);
                        assert(ranges@ == occurrences(next, token.text@));
                        assert forall|i: int| 0 <= i < matched.len() implies #[trigger] views(
                            fragments@,
                        )[i] == fragments_of(next, wanted)[i] by {
                            assert(matched[i] != token.text@);
                            assert(views(fragments@)[i] == old_fragments[i]);
                        }
                    }
                },
            }
        } else {
            proof {
                let matched = matched_terms(seen, wanted);
                assert(matched_terms(next, wanted) == matched);
                assert forall|i: int| 0 <= i < matched.len() implies #[trigger] views(
                    fragments@,
                )[i] == fragments_of(next, wanted)[i] by {
                    assert(wanted.contains(matched[i]));
                }
            }
        }
        proof {
            assert(views(fragments@) =~= fragments_of(next, wanted));
        }
        k += 1;
    }
    proof {
        assert(views(tokens@).take(tokens.len() as int) == views(tokens@));
    }
    fragments
}

/// The lower-case form of a text, as the standard library gives it.
pub uninterp spec fn lowercased(text: Seq<char>) -> Seq<char>;

/// `str::to_lowercase` of the standard library: the result depends on the
/// text alone.
#[verifier::external_body]
fn to_lowercase(text: &str) -> (lower: String)
    ensures
        lower@ == lowercased(text@),
{
    text.to_lowercase()
}

/// A token with its text in lower case and its offsets kept.
pub open spec fn lowered(token: TokenView) -> TokenView {
    TokenView {
        text: lowercased(token.text),
        offset_from: token.offset_from,
        offset_to: token.offset_to,
    }
}

/// Puts the text of every token in lower case; order and offsets stay.
pub fn lower_tokens(tokens: &Vec<TextToken>) -> (lower: Vec<TextToken>)
    ensures
        views(lower@) == views(tokens@).map_values(|token: TokenView| lowered(token)),
{
    let mut lower: Vec<TextToken> = Vec::new();
    let mut i: usize = 0;
    while i < tokens.len()
        invariant
            i <= tokens.len(),
            lower@.len() == i,
            forall|j: int| 0 <= j < i ==> (#[trigger] lower@[j])@ == lowered(tokens@[j]@),
        decreases tokens.len() - i,
    {
        let token = &tokens[i];
        lower.push(
            TextToken {
                text: to_lowercase(token.text.as_str()),
                offset_from: token.offset_from,
                offset_to: token.offset_to,
            },
        );
        i += 1;
    }
    proof {
        assert(views(lower@) =~= views(tokens@).map_values(|token: TokenView| lowered(token)));
    }
    lower
}

/// That a fragment list is the one of some token stream for the given terms.
pub open spec fn is_fragment_list(fragments: Seq<FragmentsView>, terms: Seq<Seq<char>>) -> bool {
    exists|tokens: Seq<TokenView>| fragments == #[trigger] fragments_of(tokens, terms)
}

/// A document found by a search.
#[derive(Debug)]
pub struct FileSearchEntry {
    pub path: String,
    /// The relevance that the engine gave, as the bits of a 32-bit float.
    pub score_bits: u32,
    /// Where the terms of the query occur in the content.
    pub fragments: Vec<TermFragments>,
}

/// The model of a [`FileSearchEntry`].
pub struct EntryView {
    pub path: Seq<char>,
    pub score_bits: u32,
    pub fragments: Seq<FragmentsView>,
}

impl View for FileSearchEntry {
    type V = EntryView;

    open spec fn view(&self) -> EntryView {
        EntryView {
            path: self.path@,
            score_bits: self.score_bits,
            fragments: views(self.fragments@),
        }
    }
}

/// What was fetched for a hit: its path and the tokens of its content,
/// where they could be had, and the bits of its score.
#[derive(Debug)]
pub struct Found {
    pub path: Option<String>,
    pub score_bits: u32,
    pub tokens: Option<Vec<TextToken>>,
}

/// The model of a [`Found`].
pub struct FoundView {
    pub path: Option<Seq<char>>,
    pub score_bits: u32,
    pub tokens: Option<Seq<TokenView>>,
}

impl View for Found {
    type V = FoundView;

    open spec fn view(&self) -> FoundView {
        FoundView {
            path: match self.path {
                Some(path) => Some(path@),
                None => None,
            },
            score_bits: self.score_bits,
            tokens: match self.tokens {
                Some(tokens) => Some(views(tokens@)),
                None => None,
            },
        }
    }
}

/// The fragments of a hit: gathered from the tokens of its content, in
/// lower case; none where the content could not be had.
pub open spec fn hit_fragments(tokens: Option<Seq<TokenView>>, terms: Seq<Seq<char>>) -> Seq<
    FragmentsView,
> {
    match tokens {
        Some(stream) => fragments_of(stream.map_values(|token: TokenView| lowered(token)), terms),
        None => Seq::empty(),
    }
}

/// The entry of a hit; a hit without a path has none.
pub open spec fn entry_of(found: FoundView, terms: Seq<Seq<char>>) -> Option<EntryView> {
    match found.path {
        Some(path) => Some(
            EntryView {
                path,
                score_bits: found.score_bits,
                fragments: hit_fragments(found.tokens, terms),
            },
        ),
        None => None,
    }
}

/// The entries of the hits: in the order of the hits, the entry of each hit
/// that has one.
pub open spec fn entries_of(found: Seq<FoundView>, terms: Seq<Seq<char>>) -> Seq<EntryView>
    decreases found.len(),
{
    if found.len() == 0 {
        Seq::empty()
    } else {
        let before = entries_of(found.drop_last(), terms);
        match entry_of(found.last(), terms) {
            Some(entry) => before.push(entry),
            None => before,
        }
    }
}

/// The fragments of a hit are the fragment list of a token stream.
pub proof fn lemma_hit_fragments_are_list(tokens: Option<Seq<TokenView>>, terms: Seq<Seq<char>>)
    ensures
        is_fragment_list(hit_fragments(tokens, terms), terms),
{
    match tokens {
        Some(stream) => {
            let lower = stream.map_values(|token: TokenView| lowered(token));
            assert(hit_fragments(tokens, terms) == fragments_of(lower, terms));
        },
        None => {
            assert(Seq::<FragmentsView>::empty() =~= fragments_of(Seq::<TokenView>::empty(), terms));
        },
    }
}

/// There are no more entries than hits, and every entry carries the
/// fragment list of a token stream.
pub proof fn lemma_entries_of(found: Seq<FoundView>, terms: Seq<Seq<char>>)
    ensures
        entries_of(found, terms).len() <= found.len(),
        forall|i: int|
            0 <= i < entries_of(found, terms).len() ==> is_fragment_list(
                (#[trigger] entries_of(found, terms)[i]).fragments,
                terms,
            ),
    decreases found.len(),
{
    if found.len() > 0 {
        lemma_entries_of(found.drop_last(), terms);
        lemma_hit_fragments_are_list(found.last().tokens, terms);
        let before = entries_of(found.drop_last(), terms);
        assert forall|i: int| 0 <= i < entries_of(found, terms).len() implies is_fragment_list(
            (#[trigger] entries_of(found, terms)[i]).fragments,
            terms,
        ) by {
            if i < before.len() {
                assert(entries_of(found, terms)[i] == before[i]);
            }
        }
    }
}

/// Builds the entry of a hit from what was fetched for it. The fragments are
/// gathered from the tokens of the content, in lower case, and are empty
/// where the content could not be had. A hit without a path gives no entry.
pub fn found_entry(found: &Found, terms: &Vec<String>) -> (entry: Option<FileSearchEntry>)
    ensures
        match entry {
            Some(made) => entry_of(found@, views(terms@)) == Some(made@),
            None => entry_of(found@, views(terms@)) is None,
        },
{
    let path = match &found.path {
        Some(path) => path.clone(),
        None => { return None; },
    };
    let fragments = match &found.tokens {
        Some(stream) => {
            let lower = lower_tokens(stream);
            collect_fragments(&lower, terms)
        },
        None => Vec::new(),
    };
    proof {
        assert(views(fragments@) =~= hit_fragments(found@.tokens, views(terms@)));
    }
    Some(FileSearchEntry { path, score_bits: found.score_bits, fragments })
}

/// Builds the entry of a hit from its parts.
pub fn make_entry(
    path: Option<String>,
    score_bits: u32,
    tokens: Option<Vec<TextToken>>,
    terms: &Vec<String>,
) -> (entry: Option<FileSearchEntry>)
    ensures
        entry is Some <==> path is Some,
        entry matches Some(found) ==> {
            &&& found@.path == path.unwrap()@
            &&& found@.score_bits == score_bits
            &&& found@.fragments == match tokens {
                Some(stream) => fragments_of(
                    views(stream@).map_values(|token: TokenView| lowered(token)),
                    views(terms@),
                ),
                None => Seq::<FragmentsView>::empty(),
            }
            &&& is_fragment_list(found@.fragments, views(terms@))
        },
{
    let found = Found { path, score_bits, tokens };
    proof {
        lemma_hit_fragments_are_list(found@.tokens, views(terms@));
    }
    found_entry(&found, terms)
}

/// Builds the entries of a search from what was fetched for its hits: in the
/// order of the hits, one entry for each hit that has a path.
pub fn gather_entries(found: &Vec<Found>, terms: &Vec<String>) -> (entries: Vec<FileSearchEntry>)
    ensures
        views(entries@) == entries_of(views(found@), views(terms@)),
{
    let mut entries: Vec<FileSearchEntry> = Vec::new();
    let mut i: usize = 0;
    while i < found.len()
        invariant
            i <= found.len(),
            views(entries@) == entries_of(views(found@).take(i as int), views(terms@)),
        decreases found.len() - i,
    {
        proof {
            let next = views(found@).take(i + 1);
            assert(next.drop_last() == views(found@).take(i as int));
            assert(next.last() == found@[i as int]@);
        }
        match found_entry(&found[i], terms) {
            Some(entry) => {
                entries.push(entry);
                proof {
                    assert(views(entries@) =~= entries_of(
                        views(found@).take(i + 1),
                        views(terms@),
                    ));
                }
            },
            None => {},
        }
        i += 1;
    }
    proof {
        assert(views(found@).take(found.len() as int) == views(found@));
    }
    entries
}

impl TermFragments {
    /// A copy of the entry.
    fn clone_entry(&self) -> (r: TermFragments)
        ensures
            r@ == self@,
    {
        let mut ranges: Vec<Range<usize>> = Vec::new();
        let mut i: usize = 0;
        while i < self.ranges.len()
            invariant
                i <= self.ranges.len(),
                ranges@ == self.ranges@.take(i as int),
            decreases self.ranges.len() - i,
        {
            let r = &self.ranges[i];
            ranges.push(Range { start: r.start, end: r.end });
            proof {
                assert(self.ranges@.take(i + 1) == self.ranges@.take(i as int).push(
                    self.ranges@[i as int],
                ));
            }
            i += 1;
        }
        proof {
            assert(self.ranges@.take(self.ranges.len() as int) == self.ranges@);
        }
        TermFragments { term: self.term.clone(), ranges }
    }
}

} // verus!

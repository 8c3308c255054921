use vstd::prelude::*;

verus! {

/// The number of bytes that UTF-8 takes for `c`.
pub open spec fn utf8_width(c: char) -> nat {
    let u = c as u32;
    if u < 0x80 {
        1
    } else if u < 0x800 {
        2
    } else if u < 0x10000 {
        3
    } else {
        4
    }
}

/// The number of bytes that UTF-8 takes for `s`.
pub open spec fn utf8_len(s: Seq<char>) -> nat
    decreases s.len(),
{
    if s.len() == 0 {
        0
    } else {
        utf8_len(s.drop_last()) + utf8_width(s.last())
    }
}

/// The number of characters kept when `s` is cut for a byte budget of
/// `target`: those before the last character that starts within the budget.
pub open spec fn cut_at(s: Seq<char>, target: nat) -> nat
    decreases s.len(),
{
    if s.len() <= 1 {
        0
    } else if utf8_len(s.drop_last()) <= target {
        (s.len() - 1) as nat
    } else {
        cut_at(s.drop_last(), target)
    }
}

/// `s` fitted into `limit` bytes: unchanged when it fits, else cut on a
/// character boundary with room for a trailing "...".
pub open spec fn truncated(s: Seq<char>, limit: nat) -> Seq<char> {
    if utf8_len(s) <= limit {
        s
    } else {
        s.take(cut_at(s, (limit - 3) as nat) as int) + "..."@
    }
}

/// `s` without square brackets.
pub open spec fn unbracketed(s: Seq<char>) -> Seq<char>
    decreases s.len(),
{
    if s.len() == 0 {
        Seq::empty()
    } else if s.last() == '[' || s.last() == ']' {
        unbracketed(s.drop_last())
    } else {
        unbracketed(s.drop_last()).push(s.last())
    }
}

pub proof fn lemma_utf8_len_monotone(s: Seq<char>, i: int, j: int)
    requires
        0 <= i <= j <= s.len(),
    ensures
        utf8_len(s.take(i)) <= utf8_len(s.take(j)),
    decreases j - i,
{
    if i < j {
        lemma_utf8_len_monotone(s, i, j - 1);
        assert(s.take(j).drop_last() =~= s.take(j - 1));
    }
}

/// The character count that `cut_at` gives is the one whose start lies
/// within the budget while the next one's does not.
pub proof fn lemma_cut_at(s: Seq<char>, target: nat, j: int)
    requires
        0 <= j < s.len(),
        utf8_len(s.take(j)) <= target,
        j + 1 == s.len() || utf8_len(s.take(j + 1)) > target,
    ensures
        cut_at(s, target) == j,
    decreases s.len(),
{
    let n = s.len() as int;
    assert(s.take(n - 1) =~= s.drop_last());
    if n <= 1 {
    } else if j == n - 1 {
    } else {
        lemma_utf8_len_monotone(s, j + 1, n - 1);
        let p = s.drop_last();
        assert(p.take(j) =~= s.take(j));
        assert(p.take(j + 1) =~= s.take(j + 1));
        lemma_cut_at(p, target, j);
    }
}

pub fn utf8_width_of(c: char) -> (r: usize)
    ensures
        r == utf8_width(c),
{
    let u = c as u32;
    if u < 0x80 {
        1
    } else if u < 0x800 {
        2
    } else if u < 0x10000 {
        3
    } else {
        4
    }
}

/// `text` fitted into `limit` bytes, cut on a character boundary and ended
/// by "..." when it does not fit.
pub fn safe_truncate(text: &str, limit: usize) -> (r: String)
    requires
        limit >= 3,
    ensures
        r@ == truncated(text@, limit as nat),
{
    let n = text.unicode_len();
    let mut bytes: usize = 0;
    let mut i: usize = 0;
    while i < n
        invariant
            i <= n,
            n == text@.len(),
            bytes == utf8_len(text@.take(i as int)),
            bytes <= limit,
            limit >= 3,
        decreases n - i,
    {
        assert(text@.take(i + 1).drop_last() =~= text@.take(i as int));
        let w = utf8_width_of(text.get_char(i));
        if w > limit - bytes {
            proof {
                lemma_utf8_len_monotone(text@, i + 1, n as int);
                assert(text@.take(n as int) =~= text@);
            }
            return safe_cut(text, limit);
        }
        bytes = bytes + w;
        i = i + 1;
    }
    assert(text@.take(n as int) =~= text@);
    String::from_str(text)
}

/// `text`, which does not fit into `limit` bytes, cut with room for "...".
fn safe_cut(text: &str, limit: usize) -> (r: String)
    requires
        limit >= 3,
        utf8_len(text@) > limit,
    ensures
        r@ == text@.take(cut_at(text@, (limit - 3) as nat) as int) + "..."@,
{
    let target = limit - 3;
    let n = text.unicode_len();
    assert(text@.take(n as int) =~= text@);
    assert(n > 0) by {
        if n == 0 {
            assert(text@ =~= Seq::<char>::empty());
        }
    }
    let mut start: usize = 0;
    let mut j: usize = 0;
    assert(text@.take(0) =~= Seq::<char>::empty());
    while j + 1 < n
        invariant
            j < n,
            n == text@.len(),
            start == utf8_len(text@.take(j as int)),
            start <= target,
        ensures
            j < n,
            start == utf8_len(text@.take(j as int)),
            start <= target,
            j + 1 == n || utf8_len(text@.take(j + 1)) > target,
        decreases n - j,
    {
        assert(text@.take(j + 1).drop_last() =~= text@.take(j as int));
        let w = utf8_width_of(text.get_char(j));
        if w > target - start {
            assert(utf8_len(text@.take(j + 1)) == start + w);
            break;
        }
        start = start + w;
        j = j + 1;
    }
    proof {
        lemma_cut_at(text@, target as nat, j as int);
    }
    String::from_str(text.substring_char(0, j)).concat("...")
}

/// `text` without square brackets.
pub fn strip_brackets(text: &str) -> (r: String)
    ensures
        r@ == unbracketed(text@),
{
    let n = text.unicode_len();
    let mut out = String::new();
    let mut i: usize = 0;
    while i < n
        invariant
            i <= n,
            n == text@.len(),
            out@ == unbracketed(text@.take(i as int)),
        decreases n - i,
    {
        assert(text@.take(i + 1).drop_last() =~= text@.take(i as int));
        let c = text.get_char(i);
        if c != '[' && c != ']' {
            out.append(text.substring_char(i, i + 1));
            assert(text@.subrange(i as int, i + 1) =~= seq![c]);
            assert(unbracketed(text@.take(i + 1)) =~= unbracketed(text@.take(i as int)).push(c));
        }
        i = i + 1;
    }
    assert(text@.take(n as int) =~= text@);
    out
}

/// One entry of the dictionary.
#[derive(Debug)]
pub struct UrbanEntry {
    pub definition: String,
    pub permalink: String,
    pub thumbs_up: i64,
    pub author: String,
    pub word: String,
    pub defid: i64,
    pub written_on: String,
    pub example: String,
    pub thumbs_down: i64,
}

/// How many results a card footer announces, and whether it says
/// "results".
#[derive(Clone, Copy, PartialEq, Eq, Structural, Debug)]
pub struct ResultsFooter {
    pub shown: usize,
    pub plural: bool,
}

/// What one reply card shows of an entry.
#[derive(Debug)]
pub struct UrbanCard {
    pub word: String,
    pub permalink: String,
    pub definition: String,
    pub example: Option<String>,
    pub thumbs_up: i64,
    pub thumbs_down: i64,
    pub author: String,
    pub footer: Option<ResultsFooter>,
}

/// The text a card shows for a field of an entry.
pub open spec fn shown_text(s: Seq<char>) -> Seq<char> {
    truncated(unbracketed(s), 1024)
}

/// The card of entry number `index` of `total` entries.
pub open spec fn card_of(c: UrbanCard, e: UrbanEntry, index: int, total: nat) -> bool {
    &&& c.word@ == unbracketed(e.word@)
    &&& c.permalink == e.permalink
    &&& c.definition@ == shown_text(e.definition@)
    &&& if shown_text(e.example@).len() == 0 {
        c.example is None
    } else {
        c.example is Some && c.example->0@ == shown_text(e.example@)
    }
    &&& c.thumbs_up == e.thumbs_up
    &&& c.thumbs_down == e.thumbs_down
    &&& c.author == e.author
    &&& c.footer == if index == 0 {
        Some(ResultsFooter { shown: if total < 3 { total as usize } else { 3 }, plural: total > 1 })
    } else {
        None
    }
}

/// Searches the Urban Dictionary.
#[derive(Debug, Default)]
pub struct Urban {}

impl Urban {
    /// The cards of the first three entries: brackets removed, long texts
    /// cut to 1024 bytes, an empty example left out, and a footer on the
    /// first card.
    pub fn create_cards(entries: &Vec<UrbanEntry>) -> (r: Vec<UrbanCard>)
        ensures
            r@.len() == if entries@.len() < 3 {
                entries@.len()
            } else {
                3
            },
            forall|i: int|
                0 <= i < r@.len() ==> card_of(#[trigger] r@[i], entries@[i], i, entries@.len()),
    {
        let total = entries.len();
        let shown: usize = if total < 3 {
            total
        } else {
            3
        };
        let mut cards: Vec<UrbanCard> = Vec::new();
        let mut i: usize = 0;
        while i < shown
            invariant
                i <= shown,
                shown <= total,
                total == entries@.len(),
                shown == if total < 3 {
                    total
                } else {
                    3
                },
                cards@.len() == i,
                forall|k: int| 0 <= k < i ==> card_of(#[trigger] cards@[k], entries@[k], k, total as nat),
            decreases shown - i,
        {
            let e = &entries[i];
            let word = strip_brackets(e.word.as_str());
            let definition = safe_truncate(strip_brackets(e.definition.as_str()).as_str(), 1024);
            let example_text = safe_truncate(strip_brackets(e.example.as_str()).as_str(), 1024);
            let example = if example_text.as_str().unicode_len() == 0 {
                None
            } else {
                Some(example_text)
            };
            let footer = if i == 0 {
                Some(ResultsFooter { shown, plural: total > 1 })
            } else {
                None
            };
            let card = UrbanCard {
                word,
                permalink: e.permalink.clone(),
                definition,
                example,
                thumbs_up: e.thumbs_up,
                thumbs_down: e.thumbs_down,
                author: e.author.clone(),
                footer,
            };
            cards.push(card);
            i = i + 1;
        }
        cards
    }
}

} // verus!

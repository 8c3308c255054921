use vstd::prelude::*;

use crate::error::{command_error, is_command_error, CadencyError};

verus! {

/// `s` in lower case.
pub uninterp spec fn lower_of(s: Seq<char>) -> Seq<char>;

/// Relies on `str::to_lowercase`: the result depends on the characters alone.
#[verifier::external_body]
fn lowercase(s: &str) -> (r: String)
    ensures
        r@ == lower_of(s@),
{
    s.to_lowercase()
}

/// Whether `c` is alphabetic or numeric in Unicode.
pub uninterp spec fn alphanumeric(c: char) -> bool;

/// Relies on `char::is_alphanumeric`: the result depends on the character alone.
#[verifier::external_body]
fn is_alphanumeric(c: char) -> (r: bool)
    ensures
        r == alphanumeric(c),
{
    c.is_alphanumeric()
}

/// The characters with the Unicode `White_Space` property.
pub open spec fn white_space(c: char) -> bool {
    let u = c as u32;
    ||| 0x09 <= u <= 0x0d
    ||| u == 0x20
    ||| u == 0x85
    ||| u == 0xa0
    ||| u == 0x1680
    ||| 0x2000 <= u <= 0x200a
    ||| u == 0x2028
    ||| u == 0x2029
    ||| u == 0x202f
    ||| u == 0x205f
    ||| u == 0x3000
}

pub fn is_white_space(c: char) -> (r: bool)
    ensures
        r == white_space(c),
{
    let u = c as u32;
    (0x09 <= u && u <= 0x0d) || u == 0x20 || u == 0x85 || u == 0xa0 || u == 0x1680 || (0x2000
        <= u && u <= 0x200a) || u == 0x2028 || u == 0x2029 || u == 0x202f || u == 0x205f || u
        == 0x3000
}

/// `s` without its leading white space.
pub open spec fn trim_start(s: Seq<char>) -> Seq<char>
    decreases s.len(),
{
    if s.len() > 0 && white_space(s[0]) {
        trim_start(s.drop_first())
    } else {
        s
    }
}

/// `s` without its trailing white space.
pub open spec fn trim_end(s: Seq<char>) -> Seq<char>
    decreases s.len(),
{
    if s.len() > 0 && white_space(s.last()) {
        trim_end(s.drop_last())
    } else {
        s
    }
}

/// `s` without white space at either end.
pub open spec fn trimmed(s: Seq<char>) -> Seq<char> {
    trim_end(trim_start(s))
}

/// The pieces of `s` between its commas, in order (always at least one).
pub open spec fn split_commas(s: Seq<char>) -> Seq<Seq<char>>
    decreases s.len(),
{
    if s.len() == 0 {
        seq![Seq::empty()]
    } else {
        let p = split_commas(s.drop_last());
        if s.last() == ',' {
            p.push(Seq::empty())
        } else {
            p.update(p.len() - 1, p.last().push(s.last()))
        }
    }
}

/// The trimmed pieces that are not empty, in order.
pub open spec fn nonempty_trimmed(pieces: Seq<Seq<char>>) -> Seq<Seq<char>>
    decreases pieces.len(),
{
    if pieces.len() == 0 {
        Seq::empty()
    } else {
        let p = nonempty_trimmed(pieces.drop_last());
        if trimmed(pieces.last()).len() == 0 {
            p
        } else {
            p.push(trimmed(pieces.last()))
        }
    }
}

/// The tags of a comma separated list.
pub open spec fn tags_of(s: Seq<char>) -> Seq<Seq<char>> {
    nonempty_trimmed(split_commas(s))
}

pub open spec fn tag_char(c: char) -> bool {
    alphanumeric(c) || c == '_' || c == '-'
}

/// A tag of letters, digits, `_` and `-` only.
pub open spec fn valid_tag(t: Seq<char>) -> bool {
    forall|i: int| 0 <= i < t.len() ==> #[trigger] tag_char(t[i])
}

/// The texts of a sequence of strings.
pub open spec fn texts(v: Seq<String>) -> Seq<Seq<char>> {
    v.map_values(|s: String| s@)
}

/// `s` without white space at either end.
pub fn trim(s: &str) -> (r: String)
    ensures
        r@ == trimmed(s@),
{
    let n = s.unicode_len();
    let mut start: usize = 0;
    assert(s@.subrange(0, n as int) =~= s@);
    while start < n && is_white_space(s.get_char(start))
        invariant
            start <= n,
            n == s@.len(),
            trim_start(s@) == trim_start(s@.subrange(start as int, n as int)),
        decreases n - start,
    {
        assert(s@.subrange(start + 1, n as int) =~= s@.subrange(start as int, n as int).drop_first());
        start = start + 1;
    }
    assert(trim_start(s@) == s@.subrange(start as int, n as int));
    let mut end: usize = n;
    while end > start && is_white_space(s.get_char(end - 1))
        invariant
            start <= end <= n,
            n == s@.len(),
            trimmed(s@) == trim_end(s@.subrange(start as int, end as int)),
        decreases end - start,
    {
        assert(s@.subrange(start as int, end - 1) =~= s@.subrange(start as int, end as int).drop_last());
        end = end - 1;
    }
    assert(trimmed(s@) == s@.subrange(start as int, end as int));
    String::from_str(s.substring_char(start, end))
}

/// Whether every character of `t` may stand in a tag.
pub fn is_valid_tag(t: &str) -> (r: bool)
    ensures
        r == valid_tag(t@),
{
    let n = t.unicode_len();
    let mut i: usize = 0;
    while i < n
        invariant
            i <= n,
            n == t@.len(),
            forall|j: int| 0 <= j < i ==> #[trigger] tag_char(t@[j]),
        decreases n - i,
    {
        let c = t.get_char(i);
        if !(is_alphanumeric(c) || c == '_' || c == '-') {
            assert(!tag_char(t@[i as int]));
            return false;
        }
        i = i + 1;
    }
    true
}

/// The non-empty trimmed pieces between the commas of `s`.
pub fn split_tags(s: &str) -> (r: Vec<String>)
    ensures
        texts(r@) == tags_of(s@),
{
    let n = s.unicode_len();
    let mut tags: Vec<String> = Vec::new();
    let mut start: usize = 0;
    let mut i: usize = 0;
    while i < n
        invariant
            start <= i <= n,
            n == s@.len(),
            split_commas(s@.take(i as int)).len() >= 1,
            split_commas(s@.take(i as int)).last() == s@.subrange(start as int, i as int),
            texts(tags@) == nonempty_trimmed(split_commas(s@.take(i as int)).drop_last()),
        decreases n - i,
    {
        let ghost before = split_commas(s@.take(i as int));
        assert(s@.take(i + 1).drop_last() =~= s@.take(i as int));
        assert(s@.take(i + 1).last() == s@[i as int]);
        let c = s.get_char(i);
        if c == ',' {
            let piece = trim(s.substring_char(start, i));
            if piece.as_str().unicode_len() > 0 {
                tags.push(piece);
            }
            proof {
                let after = split_commas(s@.take(i + 1));
                assert(after == before.push(Seq::empty()));
                assert(after.drop_last() =~= before);
                assert(before.drop_last().push(before.last()) =~= before);
                assert(texts(tags@) =~= nonempty_trimmed(after.drop_last()));
                assert(s@.subrange(i + 1, i + 1) =~= Seq::<char>::empty());
            }
            start = i + 1;
        } else {
            proof {
                let after = split_commas(s@.take(i + 1));
                assert(after == before.update(before.len() - 1, before.last().push(c)));
                assert(after.drop_last() =~= before.drop_last());
                assert(s@.subrange(start as int, i + 1) =~= s@.subrange(start as int, i as int).push(c));
            }
        }
        i = i + 1;
    }
    let piece = trim(s.substring_char(start, n));
    if piece.as_str().unicode_len() > 0 {
        tags.push(piece);
    }
    proof {
        let all = split_commas(s@.take(n as int));
        assert(all.drop_last().push(all.last()) =~= all);
        assert(s@.take(n as int) =~= s@);
        assert(texts(tags@) =~= nonempty_trimmed(all));
    }
    tags
}

/// A content rating of an image.
#[derive(Clone, Copy, PartialEq, Eq, Structural, Debug)]
pub enum Rating {
    Safe,
    Suggestive,
    Borderline,
    Explicit,
}

pub open spec fn invalid_rating_text(s: Seq<char>) -> Seq<char> {
    "Invalid rating '"@ + s + "'. Must be one of: safe, suggestive, borderline, explicit"@
}

/// Whether two texts are equal.
fn same_text(a: &str, b: &str) -> (r: bool)
    ensures
        r == (a@ == b@),
{
    String::from_str(a) == String::from_str(b)
}

impl Rating {
    pub open spec fn name(self) -> Seq<char> {
        match self {
            Rating::Safe => "safe"@,
            Rating::Suggestive => "suggestive"@,
            Rating::Borderline => "borderline"@,
            Rating::Explicit => "explicit"@,
        }
    }

    pub open spec fn emoji_text(self) -> Seq<char> {
        match self {
            Rating::Safe => "✅"@,
            Rating::Suggestive => "⚠️"@,
            Rating::Borderline => "🔞"@,
            Rating::Explicit => "🔞"@,
        }
    }

    /// The rating that a lower case name names, if any.
    pub open spec fn named(s: Seq<char>) -> Option<Rating> {
        if s == "safe"@ {
            Some(Rating::Safe)
        } else if s == "suggestive"@ {
            Some(Rating::Suggestive)
        } else if s == "borderline"@ {
            Some(Rating::Borderline)
        } else if s == "explicit"@ {
            Some(Rating::Explicit)
        } else {
            None
        }
    }

    /// Every rating but `Safe` is not safe for work.
    pub fn is_nsfw(&self) -> (r: bool)
        ensures
            r == !(*self is Safe),
    {
        !matches!(self, Rating::Safe)
    }

    pub fn as_str(&self) -> (r: &'static str)
        ensures
            r@ == self.name(),
    {
        match self {
            Rating::Safe => "safe",
            Rating::Suggestive => "suggestive",
            Rating::Borderline => "borderline",
            Rating::Explicit => "explicit",
        }
    }

    pub fn emoji(&self) -> (r: &'static str)
        ensures
            r@ == self.emoji_text(),
    {
        match self {
            Rating::Safe => "✅",
            Rating::Suggestive => "⚠️",
            Rating::Borderline => "🔞",
            Rating::Explicit => "🔞",
        }
    }

    /// The rating named by a name already in lower case.
    pub fn from_lowercase(s: &str) -> (r: Result<Rating, String>)
        ensures
            match Rating::named(s@) {
                Some(x) => r == Ok::<Rating, String>(x),
                None => r is Err && r->Err_0@ == invalid_rating_text(s@),
            },
    {
        if same_text(s, "safe") {
            Ok(Rating::Safe)
        } else if same_text(s, "suggestive") {
            Ok(Rating::Suggestive)
        } else if same_text(s, "borderline") {
            Ok(Rating::Borderline)
        } else if same_text(s, "explicit") {
            Ok(Rating::Explicit)
        } else {
            Err(
                String::from_str("Invalid rating '").concat(s).concat(
                    "'. Must be one of: safe, suggestive, borderline, explicit",
                ),
            )
        }
    }

    /// The rating named by `s`, in any case.
    pub fn parse(s: &str) -> (r: Result<Rating, String>)
        ensures
            match Rating::named(lower_of(s@)) {
                Some(x) => r == Ok::<Rating, String>(x),
                None => r is Err && r->Err_0@ == invalid_rating_text(lower_of(s@)),
            },
    {
        let lower = lowercase(s);
        Rating::from_lowercase(lower.as_str())
    }
}

impl std::str::FromStr for Rating {
    type Err = String;

    fn from_str(s: &str) -> Result<Rating, String> {
        Rating::parse(s)
    }
}

pub open spec fn nsfw_refused_text() -> Seq<char> {
    "**NSFW content is not allowed in this channel**"@
}

pub open spec fn empty_tags_text() -> Seq<char> {
    "Tags cannot be empty"@
}

pub open spec fn invalid_tag_text(t: Seq<char>) -> Seq<char> {
    "Invalid tag format: '"@ + t + "'"@
}

/// The kind of channel a command was sent in.
#[derive(Clone, Copy, PartialEq, Eq, Structural, Debug)]
pub enum ChannelKind {
    Guild { nsfw: bool },
    Private,
    Other,
}

/// Texts joined by commas.
pub open spec fn joined(parts: Seq<Seq<char>>) -> Seq<char>
    decreases parts.len(),
{
    if parts.len() == 0 {
        Seq::empty()
    } else if parts.len() == 1 {
        parts[0]
    } else {
        joined(parts.drop_last()) + ","@ + parts.last()
    }
}

pub open spec fn image_url_text(rating: Rating, tags: Option<Seq<Seq<char>>>) -> Seq<char> {
    let base = "https://api.nekosapi.com/v4/images/random?limit=1&rating="@ + rating.name();
    match tags {
        None => base,
        Some(t) => base + "&tags="@ + joined(t),
    }
}

/// Sends a random anime image.
#[derive(Debug, Default)]
pub struct Anime {}

impl Anime {
    /// The tags of a comma separated list: trimmed, empty ones dropped, at
    /// least one, each of letters, digits, `_` and `-` only; otherwise the
    /// first reason to refuse the list.
    pub fn validate_tags(tags_str: &str) -> (r: Result<Vec<String>, String>)
        ensures
            tags_of(tags_str@).len() == 0 ==> r is Err && r->Err_0@ == empty_tags_text(),
            tags_of(tags_str@).len() > 0 && (forall|k: int|
                0 <= k < tags_of(tags_str@).len() ==> valid_tag(#[trigger] tags_of(tags_str@)[k]))
                ==> r is Ok && texts(r->Ok_0@) == tags_of(tags_str@),
            r is Err && tags_of(tags_str@).len() > 0 ==> exists|k: int|
                0 <= k < tags_of(tags_str@).len() && !valid_tag(#[trigger] tags_of(tags_str@)[k])
                    && (forall|j: int| 0 <= j < k ==> valid_tag(tags_of(tags_str@)[j]))
                    && r->Err_0@ == invalid_tag_text(tags_of(tags_str@)[k]),
            r is Ok ==> texts(r->Ok_0@) == tags_of(tags_str@) && tags_of(tags_str@).len() > 0
                && forall|k: int|
                0 <= k < tags_of(tags_str@).len() ==> valid_tag(#[trigger] tags_of(tags_str@)[k]),
    {
        let tags = split_tags(tags_str);
        if tags.len() == 0 {
            return Err(String::from_str("Tags cannot be empty"));
        }
        let ghost all = tags_of(tags_str@);
        let mut i: usize = 0;
        while i < tags.len()
            invariant
                i <= tags@.len(),
                texts(tags@) == all,
                all == tags_of(tags_str@),
                forall|j: int| 0 <= j < i ==> valid_tag(#[trigger] all[j]),
            decreases tags@.len() - i,
        {
            assert(all[i as int] == tags@[i as int]@);
            if !is_valid_tag(tags[i].as_str()) {
                let message = String::from_str("Invalid tag format: '").concat(tags[i].as_str()).concat(
                    "'",
                );
                assert(!valid_tag(all[i as int]));
                return Err(message);
            }
            i = i + 1;
        }
        Ok(tags)
    }

    /// Whether a channel allows content that is not safe for work: a guild
    /// channel says so itself, a private channel does, any other channel, or
    /// one that could not be looked up, does not.
    pub fn channel_is_nsfw(channel: Option<ChannelKind>) -> (r: bool)
        ensures
            r == match channel {
                Some(ChannelKind::Guild { nsfw }) => nsfw,
                Some(ChannelKind::Private) => true,
                _ => false,
            },
    {
        match channel {
            Some(ChannelKind::Guild { nsfw }) => nsfw,
            Some(ChannelKind::Private) => true,
            _ => false,
        }
    }

    /// The rating and tags that the arguments of the command ask for: the
    /// rating defaults to safe, tags are optional.
    pub fn arguments(rating: Option<String>, tags: Option<String>) -> (r: Result<
        (Rating, Option<Vec<String>>),
        CadencyError,
    >)
        ensures
            ({
                let asked = match rating {
                    Some(s) => lower_of(s@),
                    None => lower_of("safe"@),
                };
                match Rating::named(asked) {
                    None => is_command_error(r, invalid_rating_text(asked)),
                    Some(x) => match tags {
                        None => r == Ok::<(Rating, Option<Vec<String>>), CadencyError>((x, None)),
                        Some(t) => if tags_of(t@).len() == 0 {
                            is_command_error(r, empty_tags_text())
                        } else if (forall|k: int|
                            0 <= k < tags_of(t@).len() ==> valid_tag(#[trigger] tags_of(t@)[k])) {
                            r is Ok && r->Ok_0.0 == x && r->Ok_0.1 is Some && texts(
                                r->Ok_0.1->0@,
                            ) == tags_of(t@)
                        } else {
                            exists|k: int|
                                0 <= k < tags_of(t@).len() && !valid_tag(#[trigger] tags_of(t@)[k])
                                    && (forall|j: int| 0 <= j < k ==> valid_tag(tags_of(t@)[j]))
                                    && is_command_error(r, invalid_tag_text(tags_of(t@)[k]))
                        },
                    },
                }
            }),
    {
        let rating_str = match rating {
            Some(s) => s,
            None => String::from_str("safe"),
        };
        let parsed = match Rating::parse(rating_str.as_str()) {
            Ok(x) => x,
            Err(message) => return Err(CadencyError::Command { message }),
        };
        match tags {
            None => Ok((parsed, None)),
            Some(t) => match Anime::validate_tags(t.as_str()) {
                Ok(v) => Ok((parsed, Some(v))),
                Err(message) => Err(CadencyError::Command { message }),
            },
        }
    }

    /// The address of a request for one random image of a rating, with its
    /// tags joined by commas.
    pub fn image_url(rating: Rating, tags: &Option<Vec<String>>) -> (r: String)
        ensures
            r@ == image_url_text(
                rating,
                match tags {
                    Some(v) => Some(texts(v@)),
                    None => None,
                },
            ),
    {
        let url = String::from_str("https://api.nekosapi.com/v4/images/random?limit=1&rating=").concat(
            rating.as_str(),
        );
        match tags {
            None => url,
            Some(v) => {
                let mut url = url.concat("&tags=");
                let ghost base = url@;
                let mut i: usize = 0;
                while i < v.len()
                    invariant
                        i <= v@.len(),
                        url@ == base + joined(texts(v@).take(i as int)),
                        *tags == Some(*v),
                    decreases v@.len() - i,
                {
                    if i > 0 {
                        url.append(",");
                    }
                    url.append(v[i].as_str());
                    proof {
                        let t = texts(v@);
                        assert(t.take(i + 1).drop_last() =~= t.take(i as int));
                        assert(t.take(i + 1).last() == v@[i as int]@);
                        if i > 0 {
                            assert(base + joined(t.take(i + 1)) =~= base + joined(t.take(i as int))
                                + ","@ + v@[i as int]@);
                        } else {
                            assert(t.take(0) =~= Seq::<Seq<char>>::empty());
                            assert(base + joined(t.take(1)) =~= base + v@[0]@);
                        }
                    }
                    i = i + 1;
                }
                assert(texts(v@).take(v@.len() as int) =~= texts(v@));
                url
            },
        }
    }

    /// Refuses a rating that is not safe for work outside a channel that
    /// allows it.
    pub fn check_channel(rating: Rating, channel_is_nsfw: bool) -> (r: Result<(), CadencyError>)
        ensures
            !(rating is Safe) && !channel_is_nsfw ==> is_command_error(r, nsfw_refused_text()),
            !(!(rating is Safe) && !channel_is_nsfw) ==> r is Ok,
    {
        if rating.is_nsfw() && !channel_is_nsfw {
            Err(command_error("**NSFW content is not allowed in this channel**"))
        } else {
            Ok(())
        }
    }
}

} // verus!

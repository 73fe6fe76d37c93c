//! The user directory: a memoized resolver from author identifiers to
//! profiles. A cache hit answers without a lookup; a cache miss records the
//! result of exactly one lookup. The display color comes from the profile's
//! declared background color, or from an injected fallback triple when the
//! profile declares the all-zero "unset" sentinel.

use std::collections::HashMap;
use vstd::prelude::*;
use crate::model::CrawlError;

verus! {

broadcast use vstd::std_specs::hash::group_hash_axioms;

/// An RGB display color.
#[derive(Clone, Copy, PartialEq, Eq, Structural, Debug)]
pub struct Rgb {
    pub r: u8,
    pub g: u8,
    pub b: u8,
}

/// A profile record as the author-lookup endpoint reports it.
#[derive(Debug, Clone)]
pub struct UserProfile {
    /// The author's handle.
    pub screen_name: String,
    /// The author's display name.
    pub name: String,
    /// Declared background color, six hex digits; all zeros means unset.
    pub profile_background_color: String,
}

/// A resolved author.
#[derive(Debug, Clone, PartialEq)]
pub struct Author {
    pub handle: String,
    pub name: String,
    pub color: Rgb,
}

/// The value of one hex digit, upper or lower case.
pub open spec fn hex_digit_value(c: char) -> Option<u8> {
    if '0' <= c && c <= '9' {
        Some((c as u32 - 48) as u8)
    } else if 'a' <= c && c <= 'f' {
        Some((c as u32 - 97 + 10) as u8)
    } else if 'A' <= c && c <= 'F' {
        Some((c as u32 - 65 + 10) as u8)
    } else {
        None
    }
}

/// The byte two hex digits denote.
pub open spec fn hex_byte_value(hi: char, lo: char) -> Option<u8> {
    match (hex_digit_value(hi), hex_digit_value(lo)) {
        (Some(h), Some(l)) => Some((h * 16 + l) as u8),
        _ => None,
    }
}

/// The all-zero sentinel meaning "no color set".
pub open spec fn is_unset_color(s: Seq<char>) -> bool {
    s == seq!['0', '0', '0', '0', '0', '0']
}

/// The color a profile's declared background yields: the fallback when the
/// sentinel is declared, the parsed triple when six hex digits are, nothing
/// when the field is malformed.
pub open spec fn color_of_profile(s: Seq<char>, fallback: Rgb) -> Option<Rgb> {
    if is_unset_color(s) {
        Some(fallback)
    } else if s.len() == 6 && hex_byte_value(s[0], s[1]) is Some && hex_byte_value(s[2], s[3])
        is Some && hex_byte_value(s[4], s[5]) is Some {
        Some(
            Rgb {
                r: hex_byte_value(s[0], s[1])->0,
                g: hex_byte_value(s[2], s[3])->0,
                b: hex_byte_value(s[4], s[5])->0,
            },
        )
    } else {
        None
    }
}

/// Reads one hex digit.
fn hex_digit(c: char) -> (r: Option<u8>)
    ensures
        r == hex_digit_value(c),
        r is Some ==> r->0 < 16,
{
    let v = c as u32;
    if 48 <= v && v <= 57 {
        Some((v - 48) as u8)
    } else if 97 <= v && v <= 102 {
        Some((v - 97 + 10) as u8)
    } else if 65 <= v && v <= 70 {
        Some((v - 65 + 10) as u8)
    } else {
        None
    }
}

/// Reads the byte two hex digits denote.
fn hex_byte(hi: char, lo: char) -> (r: Option<u8>)
    ensures
        r == hex_byte_value(hi, lo),
{
    match (hex_digit(hi), hex_digit(lo)) {
        (Some(h), Some(l)) => Some(h * 16 + l),
        _ => None,
    }
}

/// Parses a profile's declared background color. The unset sentinel yields
/// the fallback triple; six hex digits yield the declared triple; anything
/// else is a malformed profile response.
pub fn parse_color(s: &str, fallback: Rgb) -> (r: Result<Rgb, CrawlError>)
    ensures
        match color_of_profile(s@, fallback) {
            Some(c) => r == Ok::<Rgb, CrawlError>(c),
            None => r == Err::<Rgb, CrawlError>(CrawlError::MalformedResponse),
        },
{
    let n = s.unicode_len();
    if n != 6 {
        proof {
            assert(seq!['0', '0', '0', '0', '0', '0'].len() == 6);
        }
        return Err(CrawlError::MalformedResponse);
    }
    let c0 = s.get_char(0);
    let c1 = s.get_char(1);
    let c2 = s.get_char(2);
    let c3 = s.get_char(3);
    let c4 = s.get_char(4);
    let c5 = s.get_char(5);
    if c0 == '0' && c1 == '0' && c2 == '0' && c3 == '0' && c4 == '0' && c5 == '0' {
        proof {
            assert(s@ =~= seq!['0', '0', '0', '0', '0', '0']);
        }
        return Ok(fallback);
    }
    proof {
        assert(!is_unset_color(s@));
    }
    let red = hex_byte(c0, c1);
    let green = hex_byte(c2, c3);
    let blue = hex_byte(c4, c5);
    match (red, green, blue) {
        (Some(r), Some(g), Some(b)) => Ok(Rgb { r, g, b }),
        _ => Err(CrawlError::MalformedResponse),
    }
}

/// Builds the resolved author from a profile record, with the display color
/// as `color_of_profile` gives it.
pub fn author_from_profile(profile: UserProfile, fallback: Rgb) -> (r: Result<Author, CrawlError>)
    ensures
        match color_of_profile(profile.profile_background_color@, fallback) {
            Some(c) => r == Ok::<Author, CrawlError>(
                Author { handle: profile.screen_name, name: profile.name, color: c },
            ),
            None => r == Err::<Author, CrawlError>(CrawlError::MalformedResponse),
        },
{
    let color = match parse_color(profile.profile_background_color.as_str(), fallback) {
        Ok(c) => c,
        Err(e) => {
            return Err(e);
        },
    };
    Ok(Author { handle: profile.screen_name, name: profile.name, color })
}

/// The mathematical model of a user directory.
pub struct DirectoryModel {
    /// Every author resolved so far, by identifier.
    pub authors: Map<u64, Author>,
    /// Each resolved author's reply tally.
    pub counts: Map<u64, u64>,
    /// The author identifiers looked up over the network, in order.
    pub lookups: Seq<u64>,
}

/// The memoized author directory. Entries are created on first sighting and
/// never removed; each unique identifier is looked up at most once.
pub struct UserDirectory {
    authors: HashMap<u64, Author>,
    counts: HashMap<u64, u64>,
    lookups: Ghost<Seq<u64>>,
}

impl View for UserDirectory {
    type V = DirectoryModel;

    closed spec fn view(&self) -> DirectoryModel {
        DirectoryModel { authors: self.authors@, counts: self.counts@, lookups: self.lookups@ }
    }
}

impl UserDirectory {
    /// The directory's invariant: tallies exist exactly for resolved authors,
    /// and the lookup record holds each resolved identifier exactly once.
    pub open spec fn wf(&self) -> bool {
        &&& forall|a: u64|
            self@.authors.contains_key(a) <==> #[trigger] self@.counts.contains_key(a)
        &&& self@.lookups.no_duplicates()
        &&& forall|a: u64| self@.lookups.contains(a) <==> #[trigger] self@.authors.contains_key(a)
    }

    /// An empty directory.
    pub fn new() -> (d: UserDirectory)
        ensures
            d.wf(),
            d@.authors == Map::<u64, Author>::empty(),
            d@.counts == Map::<u64, u64>::empty(),
            d@.lookups == Seq::<u64>::empty(),
    {
        UserDirectory {
            authors: HashMap::new(),
            counts: HashMap::new(),
            lookups: Ghost(Seq::empty()),
        }
    }

    /// Whether the author is already resolved; when so, resolving again must
    /// not trigger another lookup.
    pub fn contains(&self, id: u64) -> (r: bool)
        ensures
            r == self@.authors.contains_key(id),
    {
        self.authors.contains_key(&id)
    }

    /// Records the result of the one network lookup made for a
    /// not-yet-resolved author. The tally starts at the given value (the root
    /// author enters with the root post already tallied).
    pub fn insert_resolved(&mut self, id: u64, author: Author, initial_count: u64)
        requires
            old(self).wf(),
            !old(self)@.authors.contains_key(id),
        ensures
            final(self).wf(),
            final(self)@.authors == old(self)@.authors.insert(id, author),
            final(self)@.counts == old(self)@.counts.insert(id, initial_count),
            final(self)@.lookups == old(self)@.lookups.push(id),
    {
        self.authors.insert(id, author);
        self.counts.insert(id, initial_count);
        proof {
            if old(self)@.lookups.contains(id) {
                assert(old(self)@.authors.contains_key(id));
            }
        }
        self.lookups = Ghost(self.lookups@.push(id));
        proof {
            let l0 = old(self)@.lookups;
            let l1 = self@.lookups;
            assert forall|i: int, j: int|
                0 <= i < l1.len() && 0 <= j < l1.len() && i != j implies l1[i] != l1[j] by {
                if i < l0.len() && j < l0.len() {
                    assert(l1[i] == l0[i] && l1[j] == l0[j]);
                } else if i == l0.len() {
                    assert(l1[i] == id && l1[j] == l0[j]);
                    if l0[j] == id {
                        assert(l0.contains(id));
                    }
                } else {
                    assert(l1[j] == id && l1[i] == l0[i]);
                    if l0[i] == id {
                        assert(l0.contains(id));
                    }
                }
            }
            assert forall|a: u64| self@.lookups.contains(a) implies #[trigger] self@.authors.contains_key(
                a,
            ) by {
                let i = choose|i: int| 0 <= i < l1.len() && l1[i] == a;
                if i < l0.len() {
                    assert(l0[i] == a);
                    assert(l0.contains(a));
                    assert(old(self)@.authors.contains_key(a));
                }
            }
            assert forall|a: u64| self@.authors.contains_key(a) implies #[trigger] self@.lookups.contains(
                a,
            ) by {
                if a == id {
                    assert(l1[l1.len() - 1] == a);
                } else {
                    assert(old(self)@.authors.contains_key(a));
                    assert(l0.contains(a));
                    let i = choose|i: int| 0 <= i < l0.len() && l0[i] == a;
                    assert(l1[i] == a);
                }
            }
            assert(self@.lookups.no_duplicates());
            assert(self@.authors == old(self)@.authors.insert(id, author));
            assert(self@.counts == old(self)@.counts.insert(id, initial_count));
            assert forall|a: u64|
                self@.authors.contains_key(a) <==> #[trigger] self@.counts.contains_key(a) by {
                if a != id {
                    assert(old(self)@.authors.contains_key(a) <==> old(
                        self,
                    )@.counts.contains_key(a));
                }
            }
        }
    }

    /// Raises a resolved author's reply tally by one.
    pub fn bump_count(&mut self, id: u64)
        requires
            old(self).wf(),
            old(self)@.authors.contains_key(id),
            old(self)@.counts[id] < u64::MAX,
        ensures
            final(self).wf(),
            final(self)@.authors == old(self)@.authors,
            final(self)@.counts == old(self)@.counts.insert(id, (old(self)@.counts[id] + 1) as u64),
            final(self)@.lookups == old(self)@.lookups,
    {
        let c = *self.counts.get(&id).unwrap();
        self.counts.insert(id, c + 1);
    }

    /// The resolved author, if the identifier has been seen.
    pub fn get(&self, id: u64) -> (r: Option<&Author>)
        ensures
            match r {
                Some(a) => self@.authors.contains_key(id) && *a == self@.authors[id],
                None => !self@.authors.contains_key(id),
            },
    {
        self.authors.get(&id)
    }

    /// A resolved author's reply tally.
    pub fn reply_count(&self, id: u64) -> (r: Option<u64>)
        ensures
            match r {
                Some(c) => self@.counts.contains_key(id) && c == self@.counts[id],
                None => !self@.counts.contains_key(id),
            },
    {
        match self.counts.get(&id) {
            Some(c) => Some(*c),
            None => None,
        }
    }

    /// How many unique authors have been resolved.
    pub fn len(&self) -> (n: usize)
        ensures
            n == self@.authors.dom().len(),
    {
        self.authors.len()
    }
}

/// Single-flight: however many posts by one author are resolved, the author
/// was looked up over the network at most once — exactly once as soon as the
/// author is in the directory.
pub proof fn lemma_single_flight(d: UserDirectory, a: u64)
    requires
        d.wf(),
    ensures
        forall|i: int, j: int|
            0 <= i < d@.lookups.len() && 0 <= j < d@.lookups.len() && d@.lookups[i] == a
                && d@.lookups[j] == a ==> i == j,
        d@.authors.contains_key(a) ==> exists|i: int|
            0 <= i < d@.lookups.len() && d@.lookups[i] == a,
{
    assert(d@.lookups.contains(a) <==> d@.authors.contains_key(a));
}

} // verus!

use vstd::prelude::*;
use vstd::string::StringExecFns;

use crate::config::Config;
use crate::text::is_substring;
use crate::text::lemma_substring_at_end;
use crate::text::lemma_substring_extend;
use crate::text::lemma_substring_grow_right;
use crate::text::lemma_substring_here;
use crate::text::lemma_substring_trans;
use crate::text::spec_decimal;
use crate::text::str_eq;
use crate::text::u16_to_string;

verus! {

/// One element of the reply's artist array, reduced to the two fields the
/// formatter reads.  `None` stands for a field that is absent or is not a
/// JSON string.
pub struct ArtistEntry {
    pub name: Option<String>,
    pub playcount: Option<String>,
}

/// The service reply, reduced to what the formatter reads: either the array
/// found at `topartists.artist`, or the fact that no array is there.
pub enum Response {
    Artists(Vec<ArtistEntry>),
    NoArtistArray,
}

/// Which required field of an artist entry was missing.
#[derive(Clone, Copy, Debug, PartialEq, Eq)]
pub enum Field {
    Name,
    Playcount,
}

/// Why the formatter failed.
#[derive(Debug, PartialEq, Eq)]
pub enum FormatError {
    /// The period is not one of the six accepted values; carries the
    /// offending value.
    InvalidPeriod(String),
    /// The reply holds no array at `topartists.artist`.
    MalformedResponse,
    /// An artist entry lacks the named field (or it is not a string).
    MissingField(Field),
}

/// The shape of a [`FormatError`], without the payload of `InvalidPeriod`.
#[derive(Clone, Copy, Debug, PartialEq, Eq)]
pub enum ErrModel {
    InvalidPeriod,
    MalformedResponse,
    MissingField(Field),
}

/// The message text of an error.  An invalid period is named, and the six
/// accepted values are enumerated.
pub open spec fn spec_message(e: FormatError) -> Seq<char> {
    match e {
        FormatError::InvalidPeriod(p) => "Period "@ + p@
            + " not allowed. Only allow \"overall\", \"7day\", \"1month\", \"3month\", \"6month\", or \"12month\"."@,
        FormatError::MalformedResponse => "Error parsing JSON."@,
        FormatError::MissingField(Field::Name) => "Artist not found."@,
        FormatError::MissingField(Field::Playcount) => "Playcount not found."@,
    }
}

impl FormatError {
    /// The message text, per [`spec_message`].
    pub fn message(&self) -> (s: String)
        ensures
            s@ == spec_message(*self),
    {
        match self {
            FormatError::InvalidPeriod(p) => {
                let mut s = String::from_str("Period ");
                s.append(p.as_str());
                s.append(
                    " not allowed. Only allow \"overall\", \"7day\", \"1month\", \"3month\", \"6month\", or \"12month\".",
                );
                s
            },
            FormatError::MalformedResponse => String::from_str("Error parsing JSON."),
            FormatError::MissingField(Field::Name) => String::from_str("Artist not found."),
            FormatError::MissingField(Field::Playcount) => String::from_str(
                "Playcount not found.",
            ),
        }
    }
}

/// The shape of an error value.
pub open spec fn err_model(e: FormatError) -> ErrModel {
    match e {
        FormatError::InvalidPeriod(_) => ErrModel::InvalidPeriod,
        FormatError::MalformedResponse => ErrModel::MalformedResponse,
        FormatError::MissingField(f) => ErrModel::MissingField(f),
    }
}

/// The fixed period table: the label that follows the word "past" in the
/// header, or `None` for a period outside the six accepted values.
pub open spec fn spec_period_label(p: Seq<char>) -> Option<Seq<char>> {
    if p == "overall"@ {
        Some(""@)
    } else if p == "7day"@ {
        Some(" week"@)
    } else if p == "1month"@ {
        Some(" month"@)
    } else if p == "3month"@ {
        Some(" 3 months"@)
    } else if p == "6month"@ {
        Some(" 6 months"@)
    } else if p == "12month"@ {
        Some(" year"@)
    } else {
        None
    }
}

/// The header label for a period, per [`spec_period_label`].
pub fn period_label(period: &str) -> (r: Option<&'static str>)
    ensures
        match spec_period_label(period@) {
            Some(l) => r matches Some(s) && s@ == l,
            None => r is None,
        },
{
    if str_eq(period, "overall") {
        Some("")
    } else if str_eq(period, "7day") {
        Some(" week")
    } else if str_eq(period, "1month") {
        Some(" month")
    } else if str_eq(period, "3month") {
        Some(" 3 months")
    } else if str_eq(period, "6month") {
        Some(" 6 months")
    } else if str_eq(period, "12month") {
        Some(" year")
    } else {
        None
    }
}

/// Both required fields of an entry are present as strings.
pub open spec fn entry_ok(a: ArtistEntry) -> bool {
    a.name is Some && a.playcount is Some
}

/// The entry's name, where present.
pub open spec fn spec_name(a: ArtistEntry) -> Seq<char> {
    match a.name {
        Some(n) => n@,
        None => Seq::empty(),
    }
}

/// The entry's playcount, where present.
pub open spec fn spec_playcount(a: ArtistEntry) -> Seq<char> {
    match a.playcount {
        Some(p) => p@,
        None => Seq::empty(),
    }
}

/// The first missing field over the entries in array order, if any.
pub open spec fn spec_scan(arts: Seq<ArtistEntry>) -> Option<Field>
    decreases arts.len(),
{
    if arts.len() == 0 {
        None
    } else if arts[0].name is None {
        Some(Field::Name)
    } else if arts[0].playcount is None {
        Some(Field::Playcount)
    } else {
        spec_scan(arts.drop_first())
    }
}

/// The punctuation after the entry at position `i`, decided by the
/// configured limit (not by the array length): a comma for all but the last
/// two positions, ", &" before the last, nothing at or past the last.
pub open spec fn spec_ending(i: int, limit: int) -> Seq<char> {
    if i <= limit - 3 {
        ","@
    } else if i == limit - 2 {
        ", &"@
    } else {
        ""@
    }
}

/// The header line, newline included.
pub open spec fn spec_header(limit: nat, label: Seq<char>) -> Seq<char> {
    "♫ My Top "@ + spec_decimal(limit) + " played artists in the past"@ + label
        + " via #LastFM ♫:\n"@
}

/// One rendering step: a space is put before the whole text so far, then the
/// entry's name, playcount and punctuation follow.
pub open spec fn spec_entry_line(
    prev: Seq<char>,
    name: Seq<char>,
    playcount: Seq<char>,
    i: int,
    limit: int,
) -> Seq<char> {
    " "@ + prev + " "@ + name + " ("@ + playcount + ")"@ + spec_ending(i, limit)
}

/// The text after rendering the first `n` entries onto the header.
pub open spec fn spec_listing(header: Seq<char>, arts: Seq<ArtistEntry>, n: int, limit: int) -> Seq<
    char,
>
    decreases n,
{
    if n <= 0 {
        header
    } else {
        spec_entry_line(
            spec_listing(header, arts, n - 1, limit),
            spec_name(arts[n - 1]),
            spec_playcount(arts[n - 1]),
            n - 1,
            limit,
        )
    }
}

/// The complete text: all entries rendered, a full stop at the end.
pub open spec fn spec_full_output(header: Seq<char>, arts: Seq<ArtistEntry>, limit: int) -> Seq<
    char,
> {
    spec_listing(header, arts, arts.len() as int, limit) + "."@
}

/// What the formatter returns, as a function of the period, the limit and
/// the reply: the period is judged first, then the reply's shape, then the
/// entries in order, and on success the exact text of [`spec_full_output`].
pub open spec fn spec_construct(period: Seq<char>, limit: u16, resp: Response) -> Result<
    Seq<char>,
    ErrModel,
> {
    match spec_period_label(period) {
        Option::None => Result::Err(ErrModel::InvalidPeriod),
        Option::Some(label) => match resp {
            Response::NoArtistArray => Result::Err(ErrModel::MalformedResponse),
            Response::Artists(v) => match spec_scan(v@) {
                Option::Some(f) => Result::Err(ErrModel::MissingField(f)),
                Option::None => Result::Ok(
                    spec_full_output(spec_header(limit as nat, label), v@, limit as int),
                ),
            },
        },
    }
}

proof fn lemma_scan_finds(arts: Seq<ArtistEntry>, i: int)
    requires
        0 <= i < arts.len(),
        forall|j: int| 0 <= j < i ==> entry_ok(arts[j]),
    ensures
        arts[i].name is None ==> spec_scan(arts) == Some(Field::Name),
        arts[i].name is Some && arts[i].playcount is None ==> spec_scan(arts) == Some(
            Field::Playcount,
        ),
    decreases i,
{
    if i > 0 {
        let rest = arts.drop_first();
        assert(entry_ok(arts[0]));
        assert forall|j: int| 0 <= j < i - 1 implies entry_ok(rest[j]) by {
            assert(rest[j] == arts[j + 1]);
        }
        assert(rest[i - 1] == arts[i]);
        lemma_scan_finds(rest, i - 1);
    }
}

proof fn lemma_scan_all_ok(arts: Seq<ArtistEntry>)
    requires
        forall|j: int| 0 <= j < arts.len() ==> entry_ok(arts[j]),
    ensures
        spec_scan(arts) is None,
    decreases arts.len(),
{
    if arts.len() > 0 {
        let rest = arts.drop_first();
        assert(entry_ok(arts[0]));
        assert forall|j: int| 0 <= j < rest.len() implies entry_ok(rest[j]) by {
            assert(rest[j] == arts[j + 1]);
        }
        lemma_scan_all_ok(rest);
    }
}

/// Turns one configuration and one parsed reply into the announcement text.
///
/// The period is judged first: an unknown period fails with
/// [`FormatError::InvalidPeriod`], carrying the offending value, before the
/// reply is looked at.  A reply without an artist array fails with
/// [`FormatError::MalformedResponse`].  The entries are then rendered in
/// array order; the first entry without a `name` string or (failing that)
/// without a `playcount` string stops the run with
/// [`FormatError::MissingField`].  Otherwise the result is exactly the text
/// of [`spec_construct`]'s `Ok` case.  Punctuation between entries follows
/// `config.limit`, not the number of entries: a reply whose length differs
/// from the requested limit keeps that (historical) behaviour.
#[verifier::loop_isolation(false)]
pub fn construct_output(config: &Config, resp: &Response) -> (r: Result<String, FormatError>)
    ensures
        match spec_construct(config.period@, config.limit, *resp) {
            Result::Ok(t) => r matches Ok(s) && s@ == t,
            Result::Err(m) => r matches Err(e) && err_model(e) == m && (e matches
                FormatError::InvalidPeriod(p) ==> p@ == config.period@),
        },
{
    let label: &str = match period_label(config.period.as_str()) {
        Some(l) => l,
        None => {
            return Err(FormatError::InvalidPeriod(config.period.clone()));
        },
    };
    let artists: &Vec<ArtistEntry> = match resp {
        Response::Artists(v) => v,
        Response::NoArtistArray => {
            return Err(FormatError::MalformedResponse);
        },
    };

    let limit = config.limit;
    let mut out = String::from_str("♫ My Top ");
    let limit_text = u16_to_string(limit);
    out.append(limit_text.as_str());
    out.append(" played artists in the past");
    out.append(label);
    out.append(" via #LastFM ♫:\n");
    let ghost header = out@;
    proof {
        assert(header =~= spec_header(limit as nat, label@));
    }

    let mut i: usize = 0;
    while i < artists.len()
        invariant
            i <= artists@.len(),
            out@ == spec_listing(header, artists@, i as int, limit as int),
            forall|j: int| 0 <= j < i ==> entry_ok(artists@[j]),
        decreases artists@.len() - i,
    {
        let a = &artists[i];
        let name: &String = match &a.name {
            Some(n) => n,
            None => {
                proof {
                    lemma_scan_finds(artists@, i as int);
                }
                return Err(FormatError::MissingField(Field::Name));
            },
        };
        let playcount: &String = match &a.playcount {
            Some(p) => p,
            None => {
                proof {
                    lemma_scan_finds(artists@, i as int);
                }
                return Err(FormatError::MissingField(Field::Playcount));
            },
        };
        let ending: &str = if limit >= 3 && i <= (limit - 3) as usize {
            ","
        } else if limit >= 2 && i == (limit - 2) as usize {
            ", &"
        } else {
            ""
        };
        proof {
            assert(ending@ == spec_ending(i as int, limit as int));
        }
        let mut line = String::from_str(" ");
        line.append(out.as_str());
        line.append(" ");
        line.append(name.as_str());
        line.append(" (");
        line.append(playcount.as_str());
        line.append(")");
        line.append(ending);
        proof {
            assert(line@ == spec_entry_line(
                out@,
                spec_name(artists@[i as int]),
                spec_playcount(artists@[i as int]),
                i as int,
                limit as int,
            ));
        }
        out = line;
        i += 1;
    }
    proof {
        lemma_scan_all_ok(artists@);
    }
    out.append(".");
    Ok(out)
}

/// The text contributed for the artist entry `a` at position `i`: a space,
/// the name, the playcount in parentheses, and the position's punctuation.
pub open spec fn spec_entry_text(a: ArtistEntry, i: int, limit: int) -> Seq<char> {
    " "@ + spec_name(a) + " ("@ + spec_playcount(a) + ")"@ + spec_ending(i, limit)
}

/// Each of the six accepted periods resolves to exactly the label of the
/// fixed table.
pub proof fn lemma_period_label_table()
    ensures
        spec_period_label("overall"@) == Some(""@),
        spec_period_label("7day"@) == Some(" week"@),
        spec_period_label("1month"@) == Some(" month"@),
        spec_period_label("3month"@) == Some(" 3 months"@),
        spec_period_label("6month"@) == Some(" 6 months"@),
        spec_period_label("12month"@) == Some(" year"@),
{
    reveal_strlit("overall");
    reveal_strlit("7day");
    reveal_strlit("1month");
    reveal_strlit("3month");
    reveal_strlit("6month");
    reveal_strlit("12month");
    assert("overall"@.len() == 7 && "overall"@[0] == 'o');
    assert("7day"@.len() == 4 && "7day"@[0] == '7');
    assert("1month"@.len() == 6 && "1month"@[0] == '1');
    assert("3month"@.len() == 6 && "3month"@[0] == '3');
    assert("6month"@.len() == 6 && "6month"@[0] == '6');
    assert("12month"@.len() == 7 && "12month"@[0] == '1');
}

/// A period outside the accepted set fails with `InvalidPeriod` whatever the
/// reply holds: the reply is never inspected.
pub proof fn lemma_invalid_period_ignores_response(
    period: Seq<char>,
    limit: u16,
    r1: Response,
    r2: Response,
)
    requires
        spec_period_label(period) is None,
    ensures
        spec_construct(period, limit, r1) == Result::<Seq<char>, ErrModel>::Err(
            ErrModel::InvalidPeriod,
        ),
        spec_construct(period, limit, r1) == spec_construct(period, limit, r2),
{
}

/// The formatter is deterministic: any two results that satisfy its contract
/// for the same period, limit and reply are equal.
pub proof fn lemma_output_deterministic(
    period: Seq<char>,
    limit: u16,
    resp: Response,
    r1: Result<Seq<char>, ErrModel>,
    r2: Result<Seq<char>, ErrModel>,
)
    requires
        r1 == spec_construct(period, limit, resp),
        r2 == spec_construct(period, limit, resp),
    ensures
        r1 == r2,
{
}

#[verifier::rlimit(50)]
proof fn lemma_chunk_shape(prev: Seq<char>, a: ArtistEntry, i: int, limit: int)
    ensures
        spec_entry_line(prev, spec_name(a), spec_playcount(a), i, limit) == (" "@ + prev)
            + spec_entry_text(a, i, limit),
{
    assert(spec_entry_line(prev, spec_name(a), spec_playcount(a), i, limit) =~= (" "@ + prev)
        + spec_entry_text(a, i, limit));
}

#[verifier::rlimit(50)]
proof fn lemma_entry_text_parts(a: ArtistEntry, i: int, limit: int)
    ensures
        spec_entry_text(a, i, limit) == " "@ + spec_name(a) + (" ("@ + spec_playcount(a) + ")"@
            + spec_ending(i, limit)),
        spec_entry_text(a, i, limit) == (" "@ + spec_name(a) + " ("@) + spec_playcount(a) + (")"@
            + spec_ending(i, limit)),
{
    assert(spec_entry_text(a, i, limit) =~= " "@ + spec_name(a) + (" ("@ + spec_playcount(a)
        + ")"@ + spec_ending(i, limit)));
    assert(spec_entry_text(a, i, limit) =~= (" "@ + spec_name(a) + " ("@) + spec_playcount(a) + (
    ")"@ + spec_ending(i, limit)));
}

proof fn lemma_listing_contains(
    header: Seq<char>,
    arts: Seq<ArtistEntry>,
    n: int,
    limit: int,
    k: int,
)
    requires
        0 <= k < n <= arts.len(),
    ensures
        is_substring(spec_listing(header, arts, n, limit), spec_entry_text(arts[k], k, limit)),
    decreases n,
{
    let needle = spec_entry_text(arts[k], k, limit);
    let prev = spec_listing(header, arts, n - 1, limit);
    lemma_chunk_shape(prev, arts[n - 1], n - 1, limit);
    if k == n - 1 {
        lemma_substring_at_end(" "@ + prev, needle);
    } else {
        lemma_listing_contains(header, arts, n - 1, limit, k);
        lemma_substring_extend(" "@, prev, spec_entry_text(arts[n - 1], n - 1, limit), needle);
    }
}

/// In a successful run every artist entry is rendered: its whole entry text
/// (space, name, playcount in parentheses, punctuation) stands contiguously
/// in the output, so in particular the name and the playcount are substrings;
/// the punctuation follows the fixed rule on the configured limit; and the
/// output ends with a full stop.
pub proof fn lemma_output_lists_every_artist(
    period: Seq<char>,
    limit: u16,
    arts: Vec<ArtistEntry>,
    t: Seq<char>,
    k: int,
)
    requires
        spec_construct(period, limit, Response::Artists(arts)) == Result::<
            Seq<char>,
            ErrModel,
        >::Ok(t),
        0 <= k < arts@.len(),
    ensures
        is_substring(t, spec_entry_text(arts@[k], k, limit as int)),
        is_substring(t, spec_name(arts@[k])),
        is_substring(t, spec_playcount(arts@[k])),
        k <= limit - 3 ==> spec_ending(k, limit as int) == ","@,
        k == limit - 2 ==> spec_ending(k, limit as int) == ", &"@,
        k >= limit - 1 ==> spec_ending(k, limit as int) == ""@,
        t.len() > 0 && t[t.len() - 1] == '.',
{
    let label = spec_period_label(period)->0;
    let header = spec_header(limit as nat, label);
    let listing = spec_listing(header, arts@, arts@.len() as int, limit as int);
    let needle = spec_entry_text(arts@[k], k, limit as int);
    lemma_listing_contains(header, arts@, arts@.len() as int, limit as int, k);
    lemma_substring_grow_right(listing, "."@, needle);
    let name = spec_name(arts@[k]);
    let pc = spec_playcount(arts@[k]);
    let ending = spec_ending(k, limit as int);
    lemma_entry_text_parts(arts@[k], k, limit as int);
    lemma_substring_here(" "@, name, " ("@ + pc + ")"@ + ending);
    lemma_substring_trans(t, needle, name);
    lemma_substring_here(" "@ + name + " ("@, pc, ")"@ + ending);
    lemma_substring_trans(t, needle, pc);
    reveal_strlit(".");
    assert(t[t.len() - 1] == '.');
}

} // verus!

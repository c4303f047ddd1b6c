//! The named locations of the campus: how the `locations` sub-command lists
//! them, and how a sign-in looks one up.

use vstd::prelude::*;

verus! {

/// The arguments of `locations`.
#[derive(Debug, Clone, Copy)]
pub struct LocationsParser {
    /// Show the result in a friendlier format.
    pub pretty: bool,
    /// Show only the locations.
    pub short: bool,
}

/// The `locations` sub-command.
#[derive(Debug, Clone, Copy, Default)]
pub struct LocationsCmdApp;

/// The line printed for the location shown as `location` under the alias `alias`.
pub open spec fn location_line(
    p: LocationsParser,
    alias: Seq<char>,
    location: Seq<char>,
) -> Seq<char> {
    if p.short {
        location
    } else if p.pretty {
        "位置: "@ + location + ", 别名: "@ + alias
    } else {
        location + "$"@ + alias
    }
}

/// A listing line shows what its mode asks: with `--short` the location
/// alone, whatever `--pretty` says; otherwise with `--pretty` the location
/// and the alias labelled, and without it the location, `$`, the alias.
pub open spec fn line_follows_mode(
    p: LocationsParser,
    alias: Seq<char>,
    location: Seq<char>,
    line: Seq<char>,
) -> bool {
    &&& p.short ==> line == location
    &&& (!p.short && p.pretty) ==> line == "位置: "@ + location + ", 别名: "@ + alias
    &&& (!p.short && !p.pretty) ==> line == location + "$"@ + alias
}

/// Every listing line shows what its mode asks, for all modes and entries.
pub proof fn lemma_location_line_follows_mode(
    p: LocationsParser,
    alias: Seq<char>,
    location: Seq<char>,
)
    ensures
        line_follows_mode(p, alias, location, location_line(p, alias, location)),
{
}

impl LocationsCmdApp {
    /// The lines that `locations` prints, one per entry and in the order of
    /// the entries; an entry is an alias and the location shown as text.
    pub fn lines(&self, p: &LocationsParser, entries: &Vec<(String, String)>) -> (lines: Vec<
        String,
    >)
        ensures
            lines@.len() == entries@.len(),
            forall|i: int|
                0 <= i < entries@.len() ==> #[trigger] lines@[i]@ == location_line(
                    *p,
                    entries@[i].0@,
                    entries@[i].1@,
                ),
            forall|i: int|
                0 <= i < entries@.len() ==> line_follows_mode(
                    *p,
                    entries@[i].0@,
                    entries@[i].1@,
                    #[trigger] lines@[i]@,
                ),
    {
        proof {
            assert forall|alias: Seq<char>, location: Seq<char>| line_follows_mode(
                *p,
                alias,
                location,
                #[trigger] location_line(*p, alias, location),
            ) by {
                lemma_location_line_follows_mode(*p, alias, location);
            }
        }
        let mut lines: Vec<String> = Vec::new();
        for i in 0..entries.len()
            invariant
                lines@.len() == i,
                forall|k: int|
                    0 <= k < i ==> #[trigger] lines@[k]@ == location_line(
                        *p,
                        entries@[k].0@,
                        entries@[k].1@,
                    ),
        {
            let alias = entries[i].0.as_str();
            let location = entries[i].1.as_str();
            let mut line = String::new();
            if p.short {
                line.append(location);
            } else if p.pretty {
                line.append("位置: ");
                line.append(location);
                line.append(", 别名: ");
                line.append(alias);
            } else {
                line.append(location);
                line.append("$");
                line.append(alias);
            }
            lines.push(line);
        }
        lines
    }
}

/// Looks locations up by alias for a location sign-in.
#[derive(Copy, Clone, Debug)]
pub struct XdsignLocationInfoGetter;

impl XdsignLocationInfoGetter {
    /// The location known under `alias`; `table` lists the known locations by
    /// alias, as the table of locations iterates them.
    pub fn get_location_by_location_str<'a, L>(
        &self,
        table: &'a Vec<(String, L)>,
        alias: &str,
    ) -> (r: Option<&'a L>)
        ensures
            r is Some <==> exists|i: int| 0 <= i < table@.len() && #[trigger] table@[i].0@ == alias@,
            r matches Some(l) ==> exists|i: int|
                0 <= i < table@.len() && table@[i].0@ == alias@ && *l == #[trigger] table@[i].1
                    && forall|j: int| 0 <= j < i ==> #[trigger] table@[j].0@ != alias@,
    {
        let mut i: usize = 0;
        while i < table.len()
            invariant
                i <= table@.len(),
                forall|j: int| 0 <= j < i ==> #[trigger] table@[j].0@ != alias@,
            decreases table.len() - i,
        {
            if crate::text::equal_text(table[i].0.as_str(), alias) {
                return Some(&table[i].1);
            }
            i = i + 1;
        }
        None
    }

    /// The location used when nothing else applies: the first one of `table`.
    pub fn get_fallback_location<'a, L>(&self, table: &'a Vec<(String, L)>) -> (r: Option<&'a L>)
        ensures
            r is Some <==> table@.len() > 0,
            r matches Some(l) ==> *l == table@[0].1,
    {
        if table.len() > 0 {
            Some(&table[0].1)
        } else {
            None
        }
    }
}

} // verus!

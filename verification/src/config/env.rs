//! Reading values out of environment variables.

use vstd::prelude::*;
use vstd::string::*;

use crate::number;
use crate::text;

verus! {

/// One environment variable.
#[derive(Debug)]
pub struct EnvVar {
    pub name: String,
    pub value: String,
}

/// The environment variables, as they were found.
#[derive(Debug)]
pub struct Env {
    pub vars: Vec<EnvVar>,
}

/// The value of a variable; where a name stands twice the first counts.
pub open spec fn value_of(vars: Seq<EnvVar>, name: Seq<char>) -> Option<Seq<char>>
    decreases vars.len(),
{
    if vars.len() == 0 {
        None
    } else if vars[0].name@ == name {
        Some(vars[0].value@)
    } else {
        value_of(vars.skip(1), name)
    }
}

/// The value of the first of several variables that holds more than white space, trimmed.
pub open spec fn first_filled(vars: Seq<EnvVar>, names: Seq<Seq<char>>) -> Option<Seq<char>>
    decreases names.len(),
{
    if names.len() == 0 {
        None
    } else if filled(value_of(vars, names[0])) is Some {
        filled(value_of(vars, names[0]))
    } else {
        first_filled(vars, names.skip(1))
    }
}

/// A value trimmed, where anything is left of it.
pub open spec fn filled(value: Option<Seq<char>>) -> Option<Seq<char>> {
    match value {
        Some(s) => if text::trimmed(s).len() == 0 {
            None
        } else {
            Some(text::trimmed(s))
        },
        None => None,
    }
}

/// A value, or what stands for a missing one.
pub open spec fn or_default(value: Option<Seq<char>>, default: Seq<char>) -> Seq<char> {
    match value {
        Some(s) => s,
        None => default,
    }
}

/// The number that a value holds, or what stands for a missing one; nothing for an invalid value.
pub open spec fn number_or(value: Option<Seq<char>>, max: nat, default: nat) -> Option<nat> {
    match value {
        Some(s) => match number::unsigned_value(s, max) {
            Ok(n) => Some(n),
            Err(_) => None,
        },
        None => Some(default),
    }
}

/// A word that means yes or no.
pub open spec fn flag_of(s: Seq<char>) -> Option<bool> {
    let word = text::trimmed(s).map_values(|c: char| text::ascii_lower(c));
    if word == "true"@ || word == "1"@ || word == "yes"@ || word == "on"@ {
        Some(true)
    } else if word == "false"@ || word == "0"@ || word == "no"@ || word == "off"@ {
        Some(false)
    } else {
        None
    }
}

/// The flag that a value holds, or what stands for a missing one; nothing for an invalid value.
pub open spec fn flag_or(value: Option<Seq<char>>, default: bool) -> Option<bool> {
    match value {
        Some(s) => flag_of(s),
        None => Some(default),
    }
}

/// The trimmed pieces that are not empty.
pub open spec fn filled_pieces(pieces: Seq<Seq<char>>) -> Seq<Seq<char>>
    decreases pieces.len(),
{
    if pieces.len() == 0 {
        Seq::empty()
    } else {
        let rest = filled_pieces(pieces.drop_last());
        let piece = text::trimmed(pieces.last());
        if piece.len() == 0 {
            rest
        } else {
            rest.push(piece)
        }
    }
}

/// The entries of a list separated by commas; a missing value holds none.
pub open spec fn entries_of(value: Option<Seq<char>>) -> Seq<Seq<char>> {
    match value {
        Some(s) => filled_pieces(text::split_at_each(s, ',')),
        None => Seq::empty(),
    }
}

impl Env {
    /// The value of a variable.
    pub open spec fn get(&self, name: Seq<char>) -> Option<Seq<char>> {
        value_of(self.vars@, name)
    }

    /// Reads a variable.
    pub fn var(&self, name: &str) -> (r: Option<String>)
        ensures
            text::opt_view(r) == self.get(name@),
    {
        let mut i: usize = 0;
        assert(self.vars@.skip(0) =~= self.vars@);
        while i < self.vars.len()
            invariant
                i <= self.vars@.len(),
                value_of(self.vars@, name@) == value_of(self.vars@.skip(i as int), name@),
            decreases self.vars@.len() - i,
        {
            let ghost here = self.vars@.skip(i as int);
            assert(here[0] == self.vars@[i as int]);
            assert(here.skip(1) =~= self.vars@.skip(i + 1));
            if text::str_eq(self.vars[i].name.as_str(), name) {
                return Some(self.vars[i].value.clone());
            }
            i = i + 1;
        }
        None
    }

    /// Reads a variable, or takes a default where it is missing.
    pub fn var_or(&self, name: &str, default: &str) -> (r: String)
        ensures
            r@ == or_default(self.get(name@), default@),
    {
        match self.var(name) {
            Some(s) => s,
            None => default.to_owned(),
        }
    }

    /// Reads a variable, trimmed; a blank one counts as missing.
    pub fn filled_var(&self, name: &str) -> (r: Option<String>)
        ensures
            text::opt_view(r) == filled(self.get(name@)),
    {
        match self.var(name) {
            Some(s) => {
                let t = text::trim(s.as_str());
                if t.unicode_len() == 0 {
                    None
                } else {
                    Some(t.to_owned())
                }
            },
            None => None,
        }
    }

    /// Reads the first of several variables that is not blank.
    pub fn first_env(&self, names: &Vec<String>) -> (r: Option<String>)
        ensures
            text::opt_view(r) == first_filled(self.vars@, text::strings_view(names@)),
    {
        let ghost all = text::strings_view(names@);
        let mut i: usize = 0;
        assert(all.skip(0) =~= all);
        while i < names.len()
            invariant
                i <= names@.len(),
                all == text::strings_view(names@),
                first_filled(self.vars@, all) == first_filled(self.vars@, all.skip(i as int)),
            decreases names@.len() - i,
        {
            let ghost here = all.skip(i as int);
            assert(here[0] == names@[i as int]@);
            assert(here.skip(1) =~= all.skip(i + 1));
            let value = self.filled_var(names[i].as_str());
            if value.is_some() {
                return value;
            }
            i = i + 1;
        }
        None
    }

    /// Reads the first of two variables that is not blank.
    pub fn first_of_two(&self, a: &str, b: &str) -> (r: Option<String>)
        ensures
            text::opt_view(r) == first_filled(self.vars@, seq![a@, b@]),
    {
        let names = vec![a.to_owned(), b.to_owned()];
        assert(text::strings_view(names@) =~= seq![a@, b@]);
        self.first_env(&names)
    }

    /// Reads the first of four variables that is not blank.
    pub fn first_of_four(&self, a: &str, b: &str, c: &str, d: &str) -> (r: Option<String>)
        ensures
            text::opt_view(r) == first_filled(self.vars@, seq![a@, b@, c@, d@]),
    {
        let names = vec![a.to_owned(), b.to_owned(), c.to_owned(), d.to_owned()];
        assert(text::strings_view(names@) =~= seq![a@, b@, c@, d@]);
        self.first_env(&names)
    }

    /// Reads a number of at most `max`; nothing for an invalid value.
    pub fn number_var(&self, name: &str, max: u64, default: u64) -> (r: Option<u64>)
        ensures
            match r {
                Some(n) => number_or(self.get(name@), max as nat, default as nat) == Some(n as nat),
                None => number_or(self.get(name@), max as nat, default as nat) is None,
            },
            r matches Some(n) ==> n <= max || n == default,
    {
        match self.var(name) {
            Some(s) => match number::parse_unsigned(s.as_str(), max) {
                Ok(n) => Some(n),
                Err(_) => None,
            },
            None => Some(default),
        }
    }

    /// Reads a flag; nothing for an invalid value.
    pub fn parse_bool_env(&self, name: &str, default: bool) -> (r: Option<bool>)
        ensures
            r == flag_or(self.get(name@), default),
    {
        match self.var(name) {
            Some(s) => {
                let word = text::to_ascii_lowercase(text::trim(s.as_str()));
                let w = word.as_str();
                if text::str_eq(w, "true") || text::str_eq(w, "1") || text::str_eq(w, "yes")
                    || text::str_eq(w, "on") {
                    Some(true)
                } else if text::str_eq(w, "false") || text::str_eq(w, "0") || text::str_eq(w, "no")
                    || text::str_eq(w, "off") {
                    Some(false)
                } else {
                    None
                }
            },
            None => Some(default),
        }
    }

    /// Reads a list separated by commas.
    pub fn parse_csv_env(&self, name: &str) -> (r: Vec<String>)
        ensures
            text::strings_view(r@) == entries_of(self.get(name@)),
    {
        let mut out: Vec<String> = Vec::new();
        assert(text::strings_view(out@) =~= Seq::empty());
        if let Some(s) = self.var(name) {
            let pieces = text::split_on(&text::chars_of(s.as_str()), ',');
            let ghost all = text::pieces_view(pieces@);
            let mut i: usize = 0;
            assert(all.take(0) =~= Seq::empty());
            while i < pieces.len()
                invariant
                    i <= pieces@.len(),
                    all == text::pieces_view(pieces@),
                    text::strings_view(out@) == filled_pieces(all.take(i as int)),
                decreases pieces@.len() - i,
            {
                assert(all.take(i + 1).drop_last() =~= all.take(i as int));
                assert(all.take(i + 1).last() == pieces@[i as int]@);
                let piece = text::string_of(&pieces[i]);
                let t = text::trim(piece.as_str());
                if t.unicode_len() > 0 {
                    let ghost before = text::strings_view(out@);
                    let entry = t.to_owned();
                    out.push(entry);
                    assert(text::strings_view(out@) =~= before.push(t@));
                }
                i = i + 1;
            }
            assert(all.take(i as int) =~= all);
        }
        out
    }
}

} // verus!

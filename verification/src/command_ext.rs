//! Fluent construction of command-line argument lists, including optional
//! long-form `--name=value` options.

use vstd::prelude::*;
use vstd::string::*;

use crate::text::{long_option, decimal_spec, string_views, long_option_string, decimal};

verus! {

/// The argument for an optional long option: `--name=value`, or nothing.
pub open spec fn option_args(name: Seq<char>, value: Option<Seq<char>>) -> Seq<Seq<char>> {
    match value {
        Some(v) => seq![long_option(name, v)],
        None => Seq::empty(),
    }
}

/// The decimal text of an optional count.
pub open spec fn count_text(value: Option<usize>) -> Option<Seq<char>> {
    match value {
        Some(n) => Some(decimal_spec(n as nat)),
        None => None,
    }
}

/// The text of a boolean, as `Display` writes it.
pub open spec fn bool_text(b: bool) -> Seq<char> {
    if b {
        seq!['t', 'r', 'u', 'e']
    } else {
        seq!['f', 'a', 'l', 's', 'e']
    }
}

/// The text of an optional boolean.
pub open spec fn flag_text(value: Option<bool>) -> Option<Seq<char>> {
    match value {
        Some(b) => Some(bool_text(b)),
        None => None,
    }
}

/// The text of an optional borrowed string.
pub open spec fn opt_text(value: Option<&str>) -> Option<Seq<char>> {
    match value {
        Some(s) => Some(s@),
        None => None,
    }
}

/// The text of an optional owned string.
pub open spec fn opt_string(value: Option<String>) -> Option<Seq<char>> {
    match value {
        Some(s) => Some(s@),
        None => None,
    }
}

/// Appending arguments to an ordered argument list. Each argument is one
/// literal string: no shell quoting, splitting or expansion.
pub trait CommandExt: Sized {
    /// The arguments in order.
    spec fn argument_list(&self) -> Seq<Seq<char>>;

    /// Appends one argument.
    fn arg(&mut self, value: &str)
        ensures
            final(self).argument_list() == old(self).argument_list().push(value@),
    ;

    /// Appends each argument of `values`, in order.
    fn args(&mut self, values: &Vec<String>)
        ensures
            final(self).argument_list() == old(self).argument_list() + string_views(values@),
    ;

    /// Appends `--name=value` for `Some(value)` and nothing for `None`.
    /// `Some("")` is an explicit empty value and is not omitted.
    fn option(&mut self, name: &str, value: Option<&str>)
        ensures
            final(self).argument_list() == old(self).argument_list() + option_args(
                name@,
                opt_text(value),
            ),
    ;

    /// Appends `--name=N` in decimal for `Some(N)` and nothing for `None`;
    /// `Some(0)` is explicit.
    fn option_count(&mut self, name: &str, value: Option<usize>)
        ensures
            final(self).argument_list() == old(self).argument_list() + option_args(
                name@,
                count_text(value),
            ),
    ;

    /// Appends `--name=true` or `--name=false` for a present value.
    fn option_flag(&mut self, name: &str, value: Option<bool>)
        ensures
            final(self).argument_list() == old(self).argument_list() + option_args(
                name@,
                flag_text(value),
            ),
    ;
}

impl CommandExt for Vec<String> {
    open spec fn argument_list(&self) -> Seq<Seq<char>> {
        string_views(self@)
    }

    fn arg(&mut self, value: &str) {
        let ghost before = self@;
        self.push(String::from_str(value));
        assert(string_views(self@) =~= string_views(before).push(value@));
    }

    fn args(&mut self, values: &Vec<String>) {
        let ghost start = string_views(self@);
        let n = values.len();
        let mut i: usize = 0;
        while i < n
            invariant
                i <= n,
                n == values@.len(),
                string_views(self@) == start + string_views(values@.take(i as int)),
            decreases n - i,
        {
            let ghost before = self@;
            self.push(String::from_str(values[i].as_str()));
            assert(string_views(values@.take(i + 1)) =~= string_views(values@.take(i as int)).push(
                values@[i as int]@,
            ));
            assert(string_views(self@) =~= string_views(before).push(values@[i as int]@));
            i = i + 1;
        }
        assert(values@.take(n as int) =~= values@);
    }

    fn option(&mut self, name: &str, value: Option<&str>) {
        let ghost before = string_views(self@);
        match value {
            Some(v) => {
                let ghost old_self = self@;
                self.push(long_option_string(name, v));
                assert(string_views(self@) =~= string_views(old_self).push(long_option(name@, v@)));
            },
            None => {
                assert(before + option_args(name@, opt_text(value)) =~= before);
            },
        }
    }

    fn option_count(&mut self, name: &str, value: Option<usize>) {
        let ghost before = string_views(self@);
        match value {
            Some(n) => {
                let digits = decimal(n);
                let ghost old_self = self@;
                self.push(long_option_string(name, digits.as_str()));
                assert(string_views(self@) =~= string_views(old_self).push(
                    long_option(name@, decimal_spec(n as nat)),
                ));
            },
            None => {
                assert(before + option_args(name@, count_text(value)) =~= before);
            },
        }
    }

    fn option_flag(&mut self, name: &str, value: Option<bool>) {
        let ghost before = string_views(self@);
        match value {
            Some(b) => {
                let text: &str;
                if b {
                    proof {
                        reveal_strlit("true");
                    }
                    text = "true";
                    assert(text@ =~= bool_text(b));
                } else {
                    proof {
                        reveal_strlit("false");
                    }
                    text = "false";
                    assert(text@ =~= bool_text(b));
                }
                let ghost old_self = self@;
                self.push(long_option_string(name, text));
                assert(string_views(self@) =~= string_views(old_self).push(
                    long_option(name@, bool_text(b)),
                ));
            },
            None => {
                assert(before + option_args(name@, flag_text(value)) =~= before);
            },
        }
    }
}

/// Borrows the text of an optional owned string.
pub fn as_text(value: &Option<String>) -> (r: Option<&str>)
    ensures
        opt_text(r) == opt_string(*value),
{
    match value {
        Some(s) => Some(s.as_str()),
        None => None,
    }
}

} // verus!

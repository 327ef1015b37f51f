//! What may describe a command or an option: one line, or several.

use vstd::prelude::*;
use vstd::string::*;

verus! {

/// A description of a command or an option.
pub trait AppDesc {
    /// The lines of the description.
    spec fn lines(self) -> Seq<Seq<char>>;

    /// The lines of the description, each as a string of its own.
    fn to_vec_string(self) -> (lines: Vec<String>)
        ensures
            lines.deep_view() == self.lines(),
    ;
}

impl AppDesc for &str {
    open spec fn lines(self) -> Seq<Seq<char>> {
        seq![self@]
    }

    fn to_vec_string(self) -> (lines: Vec<String>) {
        let mut lines: Vec<String> = Vec::new();
        lines.push(self.to_owned());
        lines
    }
}

impl AppDesc for String {
    open spec fn lines(self) -> Seq<Seq<char>> {
        seq![self@]
    }

    fn to_vec_string(self) -> (lines: Vec<String>) {
        let mut lines: Vec<String> = Vec::new();
        lines.push(self);
        lines
    }
}

impl AppDesc for &[&str] {
    open spec fn lines(self) -> Seq<Seq<char>> {
        self.deep_view()
    }

    fn to_vec_string(self) -> (lines: Vec<String>) {
        let mut lines: Vec<String> = Vec::new();
        let mut i: usize = 0;
        while i < self.len()
            invariant
                i <= self.len(),
                lines.deep_view() == self.deep_view().take(i as int),
            decreases self.len() - i,
        {
            let ghost before = lines.deep_view();
            lines.push(self[i].to_owned());
            assert(lines.deep_view() =~= before.push(self.deep_view()[i as int]));
            i += 1;
        }
        lines
    }
}

impl AppDesc for &[String] {
    open spec fn lines(self) -> Seq<Seq<char>> {
        self.deep_view()
    }

    fn to_vec_string(self) -> (lines: Vec<String>) {
        let mut lines: Vec<String> = Vec::new();
        let mut i: usize = 0;
        while i < self.len()
            invariant
                i <= self.len(),
                lines.deep_view() == self.deep_view().take(i as int),
            decreases self.len() - i,
        {
            let ghost before = lines.deep_view();
            lines.push(self[i].clone());
            assert(lines.deep_view() =~= before.push(self.deep_view()[i as int]));
            i += 1;
        }
        lines
    }
}

impl AppDesc for Vec<&str> {
    open spec fn lines(self) -> Seq<Seq<char>> {
        self.deep_view()
    }

    fn to_vec_string(self) -> (lines: Vec<String>) {
        self.as_slice().to_vec_string()
    }
}

impl AppDesc for Vec<String> {
    open spec fn lines(self) -> Seq<Seq<char>> {
        self.deep_view()
    }

    fn to_vec_string(self) -> (lines: Vec<String>) {
        self
    }
}

} // verus!

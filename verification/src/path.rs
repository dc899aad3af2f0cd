//! File paths, kept as the UTF-16 code units the operating system hands out, so a path that
//! is not valid Unicode survives unchanged.
use vstd::prelude::*;

use crate::text;

verus! {

/// A file path.
#[derive(Debug)]
pub struct FilePath {
    pub units: Vec<u16>,
}

impl View for FilePath {
    type V = Seq<u16>;

    open spec fn view(&self) -> Seq<u16> {
        self.units@
    }
}

/// The code units of a text that is ASCII only.
pub open spec fn ascii_units(s: Seq<char>) -> Seq<u16> {
    Seq::new(s.len(), |i: int| s[i] as u16)
}

/// The path of `name` in the directory `dir`, with a separator between them unless `dir` is
/// empty or ends in one; a slash counts as one on every system.
pub open spec fn inside(dir: Seq<u16>, separator: u16, name: Seq<char>) -> Seq<u16> {
    if dir.len() == 0 || dir.last() == separator || dir.last() == 47 {
        dir + ascii_units(name)
    } else {
        dir.push(separator) + ascii_units(name)
    }
}

impl FilePath {
    /// A path with the same code units.
    pub fn copy(&self) -> (r: FilePath)
        ensures
            r@ == self@,
    {
        let mut units: Vec<u16> = Vec::new();
        for i in 0..self.units.len()
            invariant
                units@ == self.units@.take(i as int),
        {
            units.push(self.units[i]);
        }
        assert(units@ =~= self.units@);
        FilePath { units }
    }

    /// Whether two paths are spelled alike.
    pub fn same_as(&self, other: &FilePath) -> (r: bool)
        ensures
            r == (self@ == other@),
    {
        if self.units.len() != other.units.len() {
            return false;
        }
        for i in 0..self.units.len()
            invariant
                self.units@.len() == other.units@.len(),
                forall|k: int| 0 <= k < i ==> self.units@[k] == other.units@[k],
        {
            if self.units[i] != other.units[i] {
                return false;
            }
        }
        assert(self@ =~= other@);
        true
    }

    /// This path with `suffix` written behind it.
    pub fn with_suffix(&self, suffix: &str) -> (r: FilePath)
        requires
            text::all_ascii(suffix@),
        ensures
            r@ == self@ + ascii_units(suffix@),
    {
        let mut r = self.copy();
        let chars = text::chars_of(suffix);
        for i in 0..chars.len()
            invariant
                chars@ == suffix@,
                text::all_ascii(suffix@),
                r@ == self@ + ascii_units(suffix@).take(i as int),
        {
            let c: char = chars[i];
            assert((suffix@[i as int] as int) < 128);
            r.units.push(c as u16);
            assert(ascii_units(suffix@).take(i + 1) =~= ascii_units(suffix@).take(i as int).push(
                ascii_units(suffix@)[i as int],
            ));
        }
        assert(ascii_units(suffix@).take(chars@.len() as int) =~= ascii_units(suffix@));
        r
    }

    /// The path of `name` in this directory.
    pub fn join(&self, separator: u16, name: &str) -> (r: FilePath)
        requires
            text::all_ascii(name@),
        ensures
            r@ == inside(self@, separator, name@),
    {
        let n: usize = self.units.len();
        if n == 0 || self.units[n - 1] == separator || self.units[n - 1] == 47 {
            return self.with_suffix(name);
        }
        let mut dir = self.copy();
        dir.units.push(separator);
        dir.with_suffix(name)
    }
}

/// A path in a directory begins with the directory and ends with the name, and one separator
/// stands between them unless the directory ends in one or is empty.
pub proof fn law_path_is_directory_and_name(dir: Seq<u16>, separator: u16, name: Seq<char>)
    ensures
        dir.len() == 0 ==> inside(dir, separator, name) =~= ascii_units(name),
        dir.len() > 0 && (dir.last() == separator || dir.last() == 47) ==> inside(
            dir,
            separator,
            name,
        ) =~= dir + ascii_units(name),
        dir.len() > 0 && dir.last() != separator && dir.last() != 47 ==> inside(
            dir,
            separator,
            name,
        ) =~= dir + seq![separator] + ascii_units(name),
{
}

} // verus!

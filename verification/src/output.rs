//! Prompt output segments and the cursor tracking they drive.

use vstd::prelude::*;

verus! {

/// Text that must bypass the printer's column tracking: terminal
/// control bytes that occupy no visual columns.
pub struct UncountedString {
    pub s: String,
}

/// One piece of prompt output: counted text advances the cursor
/// tracking; uncounted text must not.
pub enum OutputSegment {
    Counted(String),
    Uncounted(String),
}

/// Column and row after printing `s` with the cursor at `(col, row)`:
/// a newline returns the column to one and moves one row down; any
/// other character advances one column.
pub open spec fn advanced(col: int, row: int, s: Seq<char>) -> (int, int)
    decreases s.len(),
{
    if s.len() == 0 {
        (col, row)
    } else {
        let prev = advanced(col, row, s.drop_last());
        if s.last() == '\n' {
            (1int, prev.1 + 1)
        } else {
            (prev.0 + 1, prev.1)
        }
    }
}

/// Tracks the cursor position of the prompt being rendered, so the
/// prompt template can lay text out by column and row.
pub struct Printer {
    pub column: i32,
    pub row: i32,
}

impl Printer {
    /// Advances the cursor tracking over the characters of `s`.
    pub fn print(&mut self, s: &String)
        requires
            old(self).column + s@.len() <= i32::MAX,
            old(self).row + s@.len() <= i32::MAX,
            s@.len() + 1 <= i32::MAX,
        ensures
            final(self).column as int == advanced(
                old(self).column as int,
                old(self).row as int,
                s@,
            ).0,
            final(self).row as int == advanced(old(self).column as int, old(self).row as int, s@).1,
    {
        let ghost c0 = self.column as int;
        let ghost r0 = self.row as int;
        let len = s.as_str().unicode_len();
        let mut i: usize = 0;
        while i < len
            invariant
                i <= len,
                len == s@.len(),
                s@.len() + 1 <= i32::MAX,
                c0 + s@.len() <= i32::MAX,
                r0 + s@.len() <= i32::MAX,
                (self.column as int, self.row as int) == advanced(c0, r0, s@.take(i as int)),
                self.column as int <= (if c0 >= 1 {
                    c0
                } else {
                    1
                }) + i,
                self.row as int <= r0 + i,
            decreases len - i,
        {
            let ch = s.as_str().get_char(i);
            proof {
                assert(s@.take((i + 1) as int).drop_last() =~= s@.take(i as int));
                assert(s@.take((i + 1) as int).last() == s@[i as int]);
            }
            if ch == '\n' {
                self.column = 1;
                self.row = self.row + 1;
            } else {
                self.column = self.column + 1;
            }
            i += 1;
        }
        proof {
            assert(s@.take(len as int) =~= s@);
        }
    }

    /// Applies one output segment: counted text advances the cursor
    /// tracking, uncounted text leaves it untouched.
    pub fn emit(&mut self, seg: &OutputSegment)
        requires
            match *seg {
                OutputSegment::Counted(ref s) => old(self).column + s@.len() <= i32::MAX
                    && old(self).row + s@.len() <= i32::MAX && s@.len() + 1 <= i32::MAX,
                OutputSegment::Uncounted(_) => true,
            },
        ensures
            match *seg {
                OutputSegment::Counted(ref s) => final(self).column as int == advanced(
                    old(self).column as int,
                    old(self).row as int,
                    s@,
                ).0 && final(self).row as int == advanced(
                    old(self).column as int,
                    old(self).row as int,
                    s@,
                ).1,
                OutputSegment::Uncounted(_) => *final(self) == *old(self),
            },
    {
        match seg {
            OutputSegment::Counted(s) => self.print(s),
            OutputSegment::Uncounted(_) => (),
        }
    }
}

} // verus!

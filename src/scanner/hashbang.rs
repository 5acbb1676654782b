//! The interpreter line at the very start of a file.
use vstd::prelude::*;
use vstd::string::StringSliceAdditionalSpecFns;

use crate::scanner::line::line_end;
use crate::scanner::text::byte_is;
use crate::scanner::Scanner;

verus! {

/// The input at `q` begins with `#!`.
pub open spec fn starts_hashbang(b: Seq<u8>, q: int) -> bool {
    byte_is(b, q, '#' as u8) && byte_is(b, q + 1, '!' as u8)
}

impl<'s> Scanner<'s> {
    /// Scans a hashbang line: after `#!`, the rest of the line, which it
    /// returns; the line terminator stays. Without `#!` nothing moves.
    pub fn scan_hashbang(&mut self) -> (r: Option<&'s str>)
        requires
            old(self).wf(),
        ensures
            final(self).advanced_from(old(self)),
            ({
                let b = old(self).text();
                let q = old(self).pos();
                if starts_hashbang(b, q) {
                    &&& final(self).pos() == line_end(b, q + 2)
                    &&& r matches Some(s) && s.spec_bytes() == b.subrange(q + 2, line_end(b, q + 2))
                } else {
                    final(self).pos() == q && r.is_none()
                }
            }),
    {
        if self.len() >= 2 && self.cur() == '#' as u8 && self.peek(1) == '!' as u8 {
            self.bump();
            self.bump();
            let start = self.position();
            self.skip_line();
            Some(self.sub_str(start, self.position()))
        } else {
            None
        }
    }
}

} // verus!

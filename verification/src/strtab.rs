//! The trailing string table shared by the generic-facility structures:
//! an ordered, append-only list of caller strings, referenced from fixed
//! fields by the 1-based index handed out at append time.

use crate::error::SmbiosError;
use crate::Sink;
use vstd::prelude::*;
use vstd::string::StrSliceExecFns;
use vstd::string::StringSliceAdditionalSpecFns;

verus! {

/// The bytes of the strings `ss` in order, each followed by one
/// terminating zero byte.
pub open spec fn strings_bytes(ss: Seq<Seq<u8>>) -> Seq<u8>
    decreases ss.len(),
{
    if ss.len() == 0 {
        Seq::empty()
    } else {
        strings_bytes(ss.drop_last()) + ss.last() + seq![0u8]
    }
}

/// The string-table tail of a generic-facility structure: every string
/// zero-terminated and one extra zero byte after the last; when no string
/// was added, exactly two zero bytes (one spec-mandated "empty string"
/// plus the table terminator).
pub open spec fn string_tail(ss: Seq<Seq<u8>>) -> Seq<u8> {
    if ss.len() == 0 {
        seq![0u8, 0u8]
    } else {
        strings_bytes(ss) + seq![0u8]
    }
}

/// A string-reference field is valid when it holds 0 (absent) or a
/// 1-based index no larger than the current string count.
pub open spec fn string_index_ok(idx: u8, ss: Seq<Seq<u8>>) -> bool {
    idx == 0 || idx <= ss.len()
}

/// Serialized strings appear in append order: appending one more string
/// extends the serialized bytes by exactly that string and one zero byte.
pub proof fn lemma_strings_bytes_append(ss: Seq<Seq<u8>>, s: Seq<u8>)
    ensures
        strings_bytes(ss.push(s)) == strings_bytes(ss) + s + seq![0u8],
{
    assert(ss.push(s).drop_last() =~= ss);
    assert(ss.push(s).last() == s);
}

/// The tail's two shapes: exactly two zero bytes for an empty table, and
/// exactly one extra terminating zero byte after the per-string bytes for
/// a nonempty one.
pub proof fn lemma_string_tail_shape(ss: Seq<Seq<u8>>)
    ensures
        ss.len() == 0 ==> string_tail(ss) == seq![0u8, 0u8],
        ss.len() > 0 ==> string_tail(ss) == strings_bytes(ss) + seq![0u8],
{
}

/// One structure instance's table of caller-supplied strings, viewed as the
/// sequence of their byte encodings in append order.
pub struct StringTable {
    items: Vec<Vec<u8>>,
}

impl View for StringTable {
    type V = Seq<Seq<u8>>;

    closed spec fn view(&self) -> Seq<Seq<u8>> {
        self.items.deep_view()
    }
}

impl StringTable {
    pub fn new() -> (r: Self)
        ensures
            r@ == Seq::<Seq<u8>>::empty(),
    {
        let r = StringTable { items: Vec::new() };
        proof {
            assert(r@ =~= Seq::<Seq<u8>>::empty());
        }
        r
    }

    /// How many strings the table holds; the next successful append returns
    /// this count plus one.
    pub fn count(&self) -> (r: usize)
        ensures
            r == self@.len(),
    {
        self.items.len()
    }

    /// Append `s`, returning its 1-based index: the k-th successful append
    /// returns k. A table already holding 255 strings refuses the append
    /// and stays unchanged.
    pub fn push_str(&mut self, s: &str) -> (r: Result<u8, SmbiosError>)
        ensures
            old(self)@.len() < 255 ==> r == Ok::<u8, SmbiosError>(
                (old(self)@.len() + 1) as u8,
            ) && final(self)@ == old(self)@.push(s.spec_bytes()),
            old(self)@.len() >= 255 ==> r == Err::<u8, SmbiosError>(SmbiosError::StringTableFull)
                && final(self)@ == old(self)@,
    {
        if self.items.len() < 255 {
            let bytes = s.as_bytes_vec();
            self.items.push(bytes);
            proof {
                assert forall|i: int| 0 <= i < self@.len() implies #[trigger] self@[i] == old(
                    self,
                )@.push(s.spec_bytes())[i] by {
                    if i < old(self).items@.len() {
                        assert(self.items@[i] == old(self).items@[i]);
                    } else {
                        assert(self.items@[i].deep_view() =~= s.spec_bytes());
                    }
                }
                assert(self@ =~= old(self)@.push(s.spec_bytes()));
            }
            Ok(self.items.len() as u8)
        } else {
            Err(SmbiosError::StringTableFull)
        }
    }

    /// Emit the full string-table tail, extra terminator included.
    pub fn emit_tail<S: Sink>(&self, sink: &mut S)
        ensures
            final(sink).sunk() == old(sink).sunk() + string_tail(self@),
    {
        if self.items.len() == 0 {
            sink.byte(0);
            sink.byte(0);
            proof {
                assert(sink.sunk() =~= old(sink).sunk() + string_tail(self@));
            }
        } else {
            self.emit_strings(sink);
            sink.byte(0);
            proof {
                assert(sink.sunk() =~= old(sink).sunk() + string_tail(self@));
            }
        }
    }

    /// Emit each string in append order, each followed by one zero byte,
    /// without any table terminator.
    pub fn emit_strings<S: Sink>(&self, sink: &mut S)
        ensures
            final(sink).sunk() == old(sink).sunk() + strings_bytes(self@),
    {
        let n: usize = self.items.len();
        let mut i: usize = 0;
        while i < n
            invariant
                i <= n,
                n == self@.len(),
                sink.sunk() == old(sink).sunk() + strings_bytes(self@.take(i as int)),
            decreases n - i,
        {
            sink.vec(self.items[i].as_slice());
            sink.byte(0);
            proof {
                let prefix = self@.take(i as int);
                let next = self@.take(i + 1);
                assert(next.drop_last() =~= prefix);
                assert(next.last() == self@[i as int]);
                assert(sink.sunk() =~= old(sink).sunk() + strings_bytes(next));
            }
            i = i + 1;
        }
        proof {
            assert(self@.take(self@.len() as int) =~= self@);
        }
    }
}

} // verus!

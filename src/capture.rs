//! Collecting what an executor writes to one output stream.
use vstd::prelude::*;

verus! {

/// The text that `String::from_utf8_lossy` makes of `bytes`.
pub uninterp spec fn lossy_text(bytes: Seq<u8>) -> Seq<char>;

/// Every byte is below 128.
pub open spec fn all_ascii(bytes: Seq<u8>) -> bool {
    forall|i: int| 0 <= i < bytes.len() ==> bytes[i] < 128
}

/// The characters of ASCII bytes, one for each.
pub open spec fn ascii_chars(bytes: Seq<u8>) -> Seq<char> {
    bytes.map_values(|b: u8| b as char)
}

/// All chunks, joined in order.
pub open spec fn joined(chunks: Seq<Seq<u8>>) -> Seq<u8>
    decreases chunks.len(),
{
    if chunks.len() == 0 {
        Seq::empty()
    } else {
        joined(chunks.drop_last()) + chunks.last()
    }
}

/// Relies on `String::from_utf8_lossy`: a function of the bytes alone, with
/// each invalid sequence replaced rather than rejected; valid UTF-8, and so
/// ASCII, comes back as it is.
#[verifier::external_body]
fn decode_lossy(bytes: &[u8]) -> (r: String)
    ensures
        r@ == lossy_text(bytes@),
        all_ascii(bytes@) ==> r@ == ascii_chars(bytes@),
{
    String::from_utf8_lossy(bytes).into_owned()
}

/// Accumulates the bytes of one stream until it ends.
pub struct OutputCollector {
    pub buf: Vec<u8>,
}

impl View for OutputCollector {
    type V = Seq<u8>;

    open spec fn view(&self) -> Seq<u8> {
        self.buf@
    }
}

impl OutputCollector {
    /// A collector that has seen nothing.
    pub fn new() -> (r: OutputCollector)
        ensures
            r@ == Seq::<u8>::empty(),
    {
        OutputCollector { buf: Vec::new() }
    }

    /// Takes the next bytes read from the stream, after all earlier ones.
    pub fn push_chunk(&mut self, chunk: &[u8])
        ensures
            final(self)@ == old(self)@ + chunk@,
    {
        let mut i: usize = 0;
        while i < chunk.len()
            invariant
                i <= chunk@.len(),
                self@ == old(self)@ + chunk@.subrange(0, i as int),
            decreases chunk@.len() - i,
        {
            self.buf.push(chunk[i]);
            assert(chunk@.subrange(0, i + 1) =~= chunk@.subrange(0, i as int).push(chunk@[i as int]));
            i = i + 1;
        }
        assert(chunk@.subrange(0, chunk@.len() as int) =~= chunk@);
    }

    /// The text of everything seen, once the stream has ended.
    pub fn finish(self) -> (r: String)
        ensures
            r@ == lossy_text(self@),
            all_ascii(self@) ==> r@ == ascii_chars(self@),
    {
        decode_lossy(self.buf.as_slice())
    }
}

/// The text captured from a stream that delivered `chunks`, in that order:
/// exactly those bytes, lossily decoded.
pub fn capture_chunks(chunks: &Vec<Vec<u8>>) -> (r: String)
    ensures
        r@ == lossy_text(joined(chunks@.map_values(|c: Vec<u8>| c@))),
        all_ascii(joined(chunks@.map_values(|c: Vec<u8>| c@))) ==> r@ == ascii_chars(
            joined(chunks@.map_values(|c: Vec<u8>| c@)),
        ),
{
    let ghost views = chunks@.map_values(|c: Vec<u8>| c@);
    let mut collector = OutputCollector::new();
    let mut i: usize = 0;
    while i < chunks.len()
        invariant
            i <= chunks@.len(),
            views == chunks@.map_values(|c: Vec<u8>| c@),
            collector@ == joined(views.subrange(0, i as int)),
        decreases chunks@.len() - i,
    {
        collector.push_chunk(chunks[i].as_slice());
        assert(views.subrange(0, i + 1).drop_last() =~= views.subrange(0, i as int));
        i = i + 1;
    }
    assert(views.subrange(0, chunks@.len() as int) =~= views);
    collector.finish()
}

} // verus!

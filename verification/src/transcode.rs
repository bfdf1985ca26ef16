//! The driver's incremental text decoder, driven in fixed-size output
//! chunks. The decoder is deterministic: a fresh decoder of an encoding, fed
//! the unread rest of one input on every call into a 4096-byte buffer, gives
//! the same sequence of chunk results every time, which
//! [`decoder_chunk`] names. Only the functions of this module make the
//! values below, so a decoder's stated input, encoding and call count are
//! always those of the driver decoder it holds.

use vstd::prelude::*;

use mssql_tds::datatypes::sql_string::EncodingType;
use mssql_tds::encoding_rs::{CoderResult, Decoder, Encoding};
use mssql_tds::token::tokens::SqlCollation;

use crate::arrow::TextEncoding;

verus! {

/// The size of the output buffer of each decoding chunk.
pub const DECODE_CHUNK_BYTES: usize = 4096;

/// The text encoding of encoding_rs, carried through unopened.
#[verifier::external_type_specification]
#[verifier::external_body]
pub struct ExEncoding(Encoding);

/// An incremental decoder of encoding_rs, carried through unopened.
#[verifier::external_type_specification]
#[verifier::external_body]
pub struct ExDecoder(Decoder);

/// An encoding_rs encoding with the text encoding it was looked up for.
pub struct DriverEncoding {
    encoding: &'static Encoding,
    source: TextEncoding,
}

impl DriverEncoding {
    /// The text encoding the encoding was looked up for.
    pub closed spec fn source(&self) -> TextEncoding {
        self.source
    }
}

/// `EncodingType::encoding` of mssql-tds for UTF-16LE or a collation's code
/// page: the encoding_rs encoding that the driver decodes the text with
/// (`UTF_16LE`, or the code page of the LCID with Windows-1252 as fallback),
/// which the source returns for both. Nothing is stated of the encoding
/// itself.
#[verifier::external_body]
pub(crate) fn text_encoding_of(encoding: TextEncoding) -> (r: Option<DriverEncoding>)
    requires
        encoding is Utf16 || encoding is Collation,
    ensures
        r is Some,
        r matches Some(e) ==> e.source() == encoding,
{
    let native = match encoding {
        TextEncoding::Collation(c) => EncodingType::LcidBased(SqlCollation {
            info: c.info,
            lcid_language_id: c.lcid_language_id,
            col_flags: c.col_flags,
            sort_id: c.sort_id,
        }),
        _ => EncodingType::Utf16,
    };
    native.encoding().map(|e| DriverEncoding { encoding: e, source: encoding })
}

/// An encoding_rs decoder for one input, with the calls made on it so far
/// and whether its stream has ended: once a call has read all the input as
/// the last input of the stream, encoding_rs must not be handed the decoder
/// again (it panics).
pub struct TextDecoder<'a> {
    decoder: Decoder,
    encoding: TextEncoding,
    input: &'a [u8],
    last_call: Option<usize>,
    finished: bool,
}

impl<'a> TextDecoder<'a> {
    /// The bytes the decoder decodes.
    pub closed spec fn input(&self) -> Seq<u8> {
        self.input@
    }

    /// The text encoding of the decoder.
    pub closed spec fn encoding(&self) -> TextEncoding {
        self.encoding
    }

    /// The number of decoding calls made so far.
    pub closed spec fn calls(&self) -> nat {
        match self.last_call {
            Some(j) => (j + 1) as nat,
            None => 0,
        }
    }

    /// Whether the decoder's stream has ended.
    pub closed spec fn is_finished(&self) -> bool {
        self.finished
    }
}

/// `Encoding::new_decoder` of encoding_rs: a decoder with BOM sniffing for
/// `input`, whose stream has not ended and on which no call was made.
pub fn new_text_decoder<'a>(encoding: DriverEncoding, input: &'a [u8]) -> (r: TextDecoder<'a>)
    ensures
        r.input() == input@,
        r.encoding() == encoding.source(),
        r.calls() == 0,
        !r.is_finished(),
{
    TextDecoder {
        decoder: new_decoder(encoding.encoding),
        encoding: encoding.source,
        input,
        last_call: None,
        finished: false,
    }
}

/// `Encoding::new_decoder` of encoding_rs.
#[verifier::external_body]
fn new_decoder(encoding: &'static Encoding) -> Decoder {
    encoding.new_decoder()
}

/// What call number `call` of `Decoder::decode_to_utf8` of encoding_rs
/// returns on a fresh decoder of `encoding` (BOM sniffing) that every call
/// hands the unread rest of `input`, as the last input of the stream, with a
/// 4096-byte output buffer: whether all the input was read (`InputEmpty`),
/// how many bytes it read and how many it wrote.
pub uninterp spec fn decoder_chunk(input: Seq<u8>, encoding: TextEncoding, call: nat) -> (bool, usize, usize);

/// The input bytes read by the first `calls` chunks.
pub open spec fn chunk_reads(input: Seq<u8>, encoding: TextEncoding, calls: nat) -> int
    decreases calls,
{
    if calls == 0 {
        0
    } else {
        chunk_reads(input, encoding, (calls - 1) as nat) + decoder_chunk(input, encoding, (calls - 1) as nat).1
    }
}

/// Call number `call` of `Decoder::decode_to_utf8` of encoding_rs on the
/// unread rest of the decoder's input (from `pos`, what the earlier calls
/// read), as the last input of the stream, into the 4096-byte `buffer`. The
/// result is named by [`decoder_chunk`]; besides, as encoding_rs documents,
/// a call reads no more than the input and writes no more than the buffer,
/// and `InputEmpty`, which ends the stream, means that the input was read
/// to its end. A decoder whose stream has ended is not accepted.
#[verifier::external_body]
pub(crate) fn decode_utf8_chunk(decoder: &mut TextDecoder, call: usize, pos: usize, buffer: &mut Vec<u8>) -> (r: (bool, usize, usize))
    requires
        !old(decoder).is_finished(),
        call == old(decoder).calls(),
        pos == chunk_reads(old(decoder).input(), old(decoder).encoding(), call as nat),
        pos <= old(decoder).input().len(),
        old(buffer)@.len() == DECODE_CHUNK_BYTES,
    ensures
        r == decoder_chunk(old(decoder).input(), old(decoder).encoding(), call as nat),
        final(decoder).input() == old(decoder).input(),
        final(decoder).encoding() == old(decoder).encoding(),
        final(decoder).calls() == call + 1,
        final(decoder).is_finished() == r.0,
        r.1 <= old(decoder).input().len() - pos,
        r.2 <= DECODE_CHUNK_BYTES,
        r.0 ==> r.1 == old(decoder).input().len() - pos,
        final(buffer)@.len() == DECODE_CHUNK_BYTES,
{
    let (status, read, written, _) =
        decoder.decoder.decode_to_utf8(&decoder.input[pos..], buffer.as_mut_slice(), true);
    decoder.finished = status == CoderResult::InputEmpty;
    decoder.last_call = Some(call);
    (decoder.finished, read, written)
}

} // verus!

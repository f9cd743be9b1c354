use vstd::prelude::*;

verus! {

/// Symbol byte shifted out for a data bit of 0: high for one eighth of the
/// symbol period.
pub const ZERO_BIT_PATTERN: u8 = 0b1000_0000;

/// Symbol byte shifted out for a data bit of 1: high for half of the symbol
/// period.
pub const ONE_BIT_PATTERN: u8 = 0b1111_0000;

/// Every data byte expands to one symbol byte per data bit.
pub const BITS_PER_BIT: usize = 8;

/// The data bit of `byte` at position `bit`, counting from the most
/// significant bit (`bit == 0`) down to the least significant (`bit == 7`).
pub open spec fn spec_bit(byte: u8, bit: int) -> bool
    recommends
        0 <= bit < 8,
{
    (byte >> ((7 - bit) as u8)) & 1 == 1
}

/// The symbol byte emitted for bit `bit` of `byte`.
pub open spec fn spec_symbol(byte: u8, bit: int) -> u8
    recommends
        0 <= bit < 8,
{
    if spec_bit(byte, bit) {
        ONE_BIT_PATTERN
    } else {
        ZERO_BIT_PATTERN
    }
}

/// The full eight-symbol waveform for one data byte, most significant bit
/// first.
pub open spec fn spec_encode_byte(byte: u8) -> Seq<u8> {
    Seq::new(8, |i: int| spec_symbol(byte, i))
}

/// The symbol byte for one data bit of `byte`.
pub fn bit_to_spi_byte(byte: u8, bit: u8) -> (r: u8)
    requires
        bit < 8,
    ensures
        r == spec_symbol(byte, bit as int),
{
    let shift: u8 = 7 - bit;
    let masked: u8 = byte & (1u8 << shift);
    proof {
        assert((byte & (1u8 << shift) > 0) == ((byte >> shift) & 1 == 1)) by (bit_vector)
            requires
                shift < 8,
        ;
    }
    if masked > 0 {
        ONE_BIT_PATTERN
    } else {
        ZERO_BIT_PATTERN
    }
}

/// One data byte expanded into its eight bus-level symbol bytes, most
/// significant bit first.
pub fn convert_to_spi_format(byte: u8) -> (r: Vec<u8>)
    ensures
        r@ == spec_encode_byte(byte),
{
    let mut r: Vec<u8> = Vec::new();
    let mut bit: u8 = 0;
    while bit < 8
        invariant
            bit <= 8,
            r@.len() == bit as int,
            forall|i: int| 0 <= i < bit as int ==> r@[i] == spec_symbol(byte, i),
        decreases 8 - bit as int,
    {
        let s = bit_to_spi_byte(byte, bit);
        r.push(s);
        bit = bit + 1;
    }
    proof {
        assert(r@ =~= spec_encode_byte(byte));
    }
    r
}

/// The bus payload for the first `num_leds` data bytes of `frame`: the
/// waveforms of the leading bytes, concatenated in pixel order.
pub open spec fn spec_encode_frame(frame: Seq<u8>, num_leds: int) -> Seq<u8>
    recommends
        0 <= num_leds <= frame.len(),
{
    Seq::new((num_leds * 8) as nat, |j: int| spec_symbol(frame[j / 8], j % 8))
}

/// One frame expansion fills exactly eight payload bytes per LED, whatever
/// the frame holds beyond the sampled prefix.
pub proof fn lemma_payload_len(frame: Seq<u8>, num_leds: int)
    requires
        0 <= num_leds,
    ensures
        spec_encode_frame(frame, num_leds).len() == 8 * num_leds,
{
}

/// Pixel `p` of the payload is exactly the eight-symbol waveform of data
/// byte `p`: the frame encoding is the per-byte encoding, concatenated.
pub proof fn lemma_payload_pixel(frame: Seq<u8>, num_leds: int, p: int)
    requires
        0 <= p < num_leds <= frame.len(),
    ensures
        spec_encode_frame(frame, num_leds).subrange(8 * p, 8 * p + 8) =~= spec_encode_byte(
            frame[p],
        ),
{
    let payload = spec_encode_frame(frame, num_leds);
    assert forall|j: int| 0 <= j < 8 implies payload[8 * p + j] == spec_symbol(frame[p], j) by {
        assert((8 * p + j) / 8 == p && (8 * p + j) % 8 == j) by (nonlinear_arith)
            requires
                0 <= j < 8,
                0 <= p,
        ;
    }
}

/// Fills `buffer` with the bus payload for the first `num_leds` bytes of
/// `frame`, dropping whatever the buffer held before.
pub fn fill_spi_buffer(frame: &[u8], num_leds: usize, buffer: &mut Vec<u8>)
    requires
        num_leds <= frame@.len(),
        8 * num_leds <= usize::MAX,
    ensures
        final(buffer)@ == spec_encode_frame(frame@, num_leds as int),
{
    buffer.clear();
    let mut p: usize = 0;
    while p < num_leds
        invariant
            p <= num_leds <= frame@.len(),
            8 * num_leds <= usize::MAX,
            buffer@.len() == 8 * p,
            forall|j: int| 0 <= j < 8 * p ==> buffer@[j] == spec_symbol(frame@[j / 8], j % 8),
        decreases num_leds - p,
    {
        let byte = frame[p];
        let mut bit: u8 = 0;
        while bit < 8
            invariant
                bit <= 8,
                p < num_leds <= frame@.len(),
                8 * num_leds <= usize::MAX,
                byte == frame@[p as int],
                buffer@.len() == 8 * p + bit as int,
                forall|j: int| 0 <= j < 8 * p + bit as int ==> buffer@[j] == spec_symbol(
                    frame@[j / 8],
                    j % 8,
                ),
            decreases 8 - bit as int,
        {
            let s = bit_to_spi_byte(byte, bit);
            buffer.push(s);
            proof {
                let j0 = 8 * (p as int) + bit as int;
                assert(j0 / 8 == p as int && j0 % 8 == bit as int) by (nonlinear_arith)
                    requires
                        0 <= bit < 8,
                        0 <= p,
                        j0 == 8 * (p as int) + bit as int,
                ;
            }
            bit = bit + 1;
        }
        p = p + 1;
    }
    proof {
        assert(buffer@ =~= spec_encode_frame(frame@, num_leds as int));
    }
}

/// The data bit a downstream decoder reads back from one symbol byte: 1 for
/// the one-waveform, 0 for anything else.
pub open spec fn spec_symbol_bit(symbol: u8) -> u8 {
    if symbol == ONE_BIT_PATTERN {
        1
    } else {
        0
    }
}

/// The data byte reconstructed from an eight-symbol waveform, most
/// significant bit first.
pub open spec fn spec_decode_byte(w: Seq<u8>) -> u8
    recommends
        w.len() == 8,
{
    (spec_symbol_bit(w[0]) << 7) | (spec_symbol_bit(w[1]) << 6) | (spec_symbol_bit(w[2]) << 5) | (
    spec_symbol_bit(w[3]) << 4) | (spec_symbol_bit(w[4]) << 3) | (spec_symbol_bit(w[5]) << 2) | (
    spec_symbol_bit(w[6]) << 1) | spec_symbol_bit(w[7])
}

/// Reads the data byte back out of an eight-symbol waveform.
pub fn decode_spi_symbols(w: &[u8]) -> (r: u8)
    requires
        w@.len() == 8,
    ensures
        r == spec_decode_byte(w@),
{
    let b0: u8 = if w[0] == ONE_BIT_PATTERN { 1 } else { 0 };
    let b1: u8 = if w[1] == ONE_BIT_PATTERN { 1 } else { 0 };
    let b2: u8 = if w[2] == ONE_BIT_PATTERN { 1 } else { 0 };
    let b3: u8 = if w[3] == ONE_BIT_PATTERN { 1 } else { 0 };
    let b4: u8 = if w[4] == ONE_BIT_PATTERN { 1 } else { 0 };
    let b5: u8 = if w[5] == ONE_BIT_PATTERN { 1 } else { 0 };
    let b6: u8 = if w[6] == ONE_BIT_PATTERN { 1 } else { 0 };
    let b7: u8 = if w[7] == ONE_BIT_PATTERN { 1 } else { 0 };
    (b0 << 7) | (b1 << 6) | (b2 << 5) | (b3 << 4) | (b4 << 3) | (b5 << 2) | (b6 << 1) | b7
}

/// Decoding undoes encoding: the waveform of any data byte reads back as
/// that byte, bit for bit.
pub proof fn lemma_spi_round_trip(byte: u8)
    ensures
        spec_decode_byte(spec_encode_byte(byte)) == byte,
{
    let w = spec_encode_byte(byte);
    let b0 = spec_symbol_bit(w[0]);
    let b1 = spec_symbol_bit(w[1]);
    let b2 = spec_symbol_bit(w[2]);
    let b3 = spec_symbol_bit(w[3]);
    let b4 = spec_symbol_bit(w[4]);
    let b5 = spec_symbol_bit(w[5]);
    let b6 = spec_symbol_bit(w[6]);
    let b7 = spec_symbol_bit(w[7]);
    assert(byte == (b0 << 7) | (b1 << 6) | (b2 << 5) | (b3 << 4) | (b4 << 3) | (b5 << 2) | (b6
        << 1) | b7) by (bit_vector)
        requires
            b0 == (if (byte >> 7u8) & 1 == 1 { 1u8 } else { 0u8 }),
            b1 == (if (byte >> 6u8) & 1 == 1 { 1u8 } else { 0u8 }),
            b2 == (if (byte >> 5u8) & 1 == 1 { 1u8 } else { 0u8 }),
            b3 == (if (byte >> 4u8) & 1 == 1 { 1u8 } else { 0u8 }),
            b4 == (if (byte >> 3u8) & 1 == 1 { 1u8 } else { 0u8 }),
            b5 == (if (byte >> 2u8) & 1 == 1 { 1u8 } else { 0u8 }),
            b6 == (if (byte >> 1u8) & 1 == 1 { 1u8 } else { 0u8 }),
            b7 == (if (byte >> 0u8) & 1 == 1 { 1u8 } else { 0u8 }),
    ;
}

} // verus!

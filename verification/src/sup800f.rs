//! Framing for the SUP800F GPS module's binary protocol: building command
//! frames and scanning received bytes for one message.  Reading from and
//! writing to the serial port are the caller's business.

use vstd::prelude::*;

verus! {

/// The running exclusive-or of all bytes: the protocol's checksum.
pub open spec fn xor_fold(s: Seq<u8>) -> u8
    decreases s.len(),
{
    if s.len() == 0 {
        0
    } else {
        xor_fold(s.drop_last()) ^ s.last()
    }
}

/// A payload framed for the SUP800F: the two header bytes, the payload
/// length in big-endian, the payload, its checksum, and the line ending.
pub open spec fn format_message_spec(payload: Seq<u8>) -> Seq<u8> {
    seq![
        0xA0u8,
        0xA1u8,
        (payload.len() as int / 256) as u8,
        (payload.len() as int % 256) as u8,
    ] + payload + seq![xor_fold(payload), 0x0Du8, 0x0Au8]
}

/// Formats a message for the SUP800F, including adding a length designator
/// and a checksum.
pub fn _format_message(payload: &Vec<u8>) -> (r: Vec<u8>)
    requires
        payload@.len() <= 65535,
    ensures
        r@ == format_message_spec(payload@),
{
    let mut vector: Vec<u8> = Vec::new();
    vector.push(0xA0);
    vector.push(0xA1);
    let length = payload.len() as u16;
    vector.push((length / 256) as u8);
    vector.push((length % 256) as u8);
    let mut checksum: u8 = 0;
    let mut i: usize = 0;
    while i < payload.len()
        invariant
            0 <= i <= payload@.len() <= 65535,
            checksum == xor_fold(payload@.take(i as int)),
            vector@ == seq![
                0xA0u8,
                0xA1u8,
                (payload@.len() as int / 256) as u8,
                (payload@.len() as int % 256) as u8,
            ] + payload@.take(i as int),
        decreases payload@.len() - i,
    {
        proof {
            assert(payload@.take(i as int + 1).drop_last() =~= payload@.take(i as int));
            assert(payload@.take(i as int + 1).last() == payload@[i as int]);
        }
        checksum = checksum ^ payload[i];
        vector.push(payload[i]);
        i = i + 1;
    }
    proof {
        assert(payload@.take(payload@.len() as int) =~= payload@);
    }
    vector.push(checksum);
    vector.push(0x0D);
    vector.push(0x0A);
    proof {
        assert(vector@ =~= format_message_spec(payload@));
    }
    vector
}

/// Scans a received byte buffer, from `start`, for one binary message:
/// the first `0xA0 0xA1` header with a sane big-endian payload length
/// whose payload lies fully in the buffer.  Returns the message — its
/// first four bytes rewritten to the internal `0x0A 0x0A` tag and the
/// length bytes — and the index just past the payload.  Returns nothing
/// when the buffer holds no such complete message.
pub fn get_message(buffer: &Vec<u8>, start: usize) -> (r: Option<(Vec<u8>, usize)>)
    requires
        start <= buffer@.len(),
    ensures
        r is Some ==> ({
            let message = r.unwrap().0;
            let next = r.unwrap().1;
            exists|p: int|
                {
                    &&& start <= p
                    &&& p + 4 <= buffer@.len()
                    &&& #[trigger] buffer@[p] == 0xA0
                    &&& buffer@[p + 1] == 0xA1
                    &&& {
                        let length = buffer@[p + 2] * 256 + buffer@[p + 3];
                        &&& 4 <= length <= 1024
                        &&& next == p + 4 + length
                        &&& next <= buffer@.len()
                        &&& message@.len() == length + 4
                        &&& message@[0] == 0x0A
                        &&& message@[1] == 0x0A
                        &&& message@[2] == buffer@[p + 2]
                        &&& message@[3] == buffer@[p + 3]
                        &&& message@.subrange(4, message@.len() as int) == buffer@.subrange(
                            p + 4,
                            next as int,
                        )
                    }
                }
        }),
{
    let mut p: usize = start;
    while buffer.len() >= 4 && p <= buffer.len() - 4
        invariant
            start <= p,
            p <= buffer@.len() + 1,
        decreases buffer@.len() - p,
    {
        if buffer[p] == 0xA0 && buffer[p + 1] == 0xA1 {
            let payload_length: usize = (buffer[p + 2] as usize) * 256 + (buffer[p + 3] as usize);
            if payload_length < 4 || payload_length > 1024 {
                // An implausible length: give up on this buffer.
                return None;
            }
            if buffer.len() - (p + 4) < payload_length {
                // The message has not arrived whole yet.
                return None;
            }
            let next: usize = p + 4 + payload_length;
            let mut message: Vec<u8> = Vec::new();
            message.push(0x0A);
            message.push(0x0A);
            message.push(buffer[p + 2]);
            message.push(buffer[p + 3]);
            let mut j: usize = p + 4;
            while j < next
                invariant
                    p + 4 <= j <= next,
                    next <= buffer@.len(),
                    message@ == seq![
                        0x0Au8,
                        0x0Au8,
                        buffer@[p as int + 2],
                        buffer@[p as int + 3],
                    ] + buffer@.subrange(p as int + 4, j as int),
                decreases next - j,
            {
                proof {
                    assert(buffer@.subrange(p as int + 4, j as int + 1) =~= buffer@.subrange(
                        p as int + 4,
                        j as int,
                    ).push(buffer@[j as int]));
                }
                message.push(buffer[j]);
                j = j + 1;
            }
            proof {
                assert(message@.subrange(4, message@.len() as int) =~= buffer@.subrange(
                    p as int + 4,
                    next as int,
                ));
            }
            return Some((message, next));
        }
        p = p + 1;
    }
    None
}

/// The frame that switches the module to NMEA reporting.
pub fn switch_to_nmea_mode() -> (r: Vec<u8>)
    ensures
        r@ == format_message_spec(seq![9u8, 1u8, 0u8]),
{
    _change_mode(1)
}

/// The frame that switches the module to binary (temperature,
/// accelerometer and magnetometer) reporting.
pub fn switch_to_binary_mode() -> (r: Vec<u8>)
    ensures
        r@ == format_message_spec(seq![9u8, 2u8, 0u8]),
{
    _change_mode(2)
}

/// The frame that selects a reporting mode (message id 9, configure
/// message type).  The caller writes it to the serial port.
pub fn _change_mode(mode: u8) -> (r: Vec<u8>)
    ensures
        r@ == format_message_spec(seq![9u8, mode, 0u8]),
{
    let mut payload: Vec<u8> = Vec::new();
    payload.push(9);
    payload.push(mode);
    payload.push(0);
    proof {
        assert(payload@ =~= seq![9u8, mode, 0u8]);
    }
    _format_message(&payload)
}

} // verus!

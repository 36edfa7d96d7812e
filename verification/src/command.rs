//! The vendor command frame written to the fixtures' color characteristic.
//!
//! A frame is exactly 8 bytes: the fixed prefix `0x78 0x86 0x04`, the hue
//! split little-endian into two bytes, the saturation byte, the brightness
//! byte, and a trailing checksum equal to the 8-bit wraparound sum of the
//! preceding 7 bytes. The devices acknowledge nothing, so the layout must be
//! byte-exact.

use vstd::prelude::*;
use vstd::arithmetic::div_mod::{lemma_add_mod_noop, lemma_mod_twice, lemma_small_mod};

use crate::color::{hsv_hue, hsv_saturation, hsv_value, Color};

verus! {

/// The unbounded sum of a byte sequence.
pub open spec fn sum_bytes(s: Seq<u8>) -> int
    decreases s.len(),
{
    if s.len() == 0 {
        0
    } else {
        sum_bytes(s.drop_last()) + s.last()
    }
}

/// The 8-byte command frame carrying a color in HSV form.
pub open spec fn command_bytes(c: Color) -> Seq<u8> {
    let h = hsv_hue(c.red as int, c.green as int, c.blue as int);
    let s = hsv_saturation(c.red as int, c.green as int, c.blue as int);
    let v = hsv_value(c.red as int, c.green as int, c.blue as int);
    let prefix = seq![
        0x78u8,
        0x86u8,
        0x04u8,
        (h % 256) as u8,
        (h / 256) as u8,
        s as u8,
        v as u8,
    ];
    prefix.push((sum_bytes(prefix) % 256) as u8)
}

/// The 8-bit wraparound sum of a byte slice.
pub fn get_checksum(send_value: &[u8]) -> (r: u8)
    ensures
        r as int == sum_bytes(send_value@) % 256,
{
    let mut check_sum: u8 = 0;
    let mut i: usize = 0;
    while i < send_value.len()
        invariant
            i <= send_value@.len(),
            check_sum as int == sum_bytes(send_value@.take(i as int)) % 256,
        decreases send_value@.len() - i,
    {
        proof {
            let pre = send_value@.take(i as int);
            let post = send_value@.take(i + 1);
            assert(post.drop_last() =~= pre);
            lemma_add_mod_noop(sum_bytes(pre), send_value@[i as int] as int, 256);
            lemma_mod_twice(sum_bytes(pre), 256);
        }
        check_sum = check_sum.wrapping_add(send_value[i]);
        i += 1;
    }
    proof {
        assert(send_value@.take(i as int) =~= send_value@);
    }
    check_sum
}

/// Builds the 8-byte frame for the given hue (degrees) and saturation and
/// brightness percentages.
pub fn encode_color_command(hue: u16, saturation: u8, brightness: u8) -> (r: Vec<u8>)
    ensures
        r@.len() == 8,
        r@[0] == 0x78u8,
        r@[1] == 0x86u8,
        r@[2] == 0x04u8,
        r@[3] as int == hue as int % 256,
        r@[4] as int == hue as int / 256,
        r@[5] == saturation,
        r@[6] == brightness,
        r@[7] as int == sum_bytes(r@.take(7)) % 256,
{
    let hue_lsb: u8 = (hue % 256) as u8;
    let hue_msb: u8 = (hue / 256) as u8;

    let mut color_cmd: Vec<u8> = Vec::new();
    color_cmd.push(0x78);
    color_cmd.push(0x86);
    color_cmd.push(0x04);
    color_cmd.push(hue_lsb);
    color_cmd.push(hue_msb);
    color_cmd.push(saturation);
    color_cmd.push(brightness);
    let checksum = get_checksum(color_cmd.as_slice());
    proof {
        assert(color_cmd@.push(checksum).take(7) =~= color_cmd@);
    }
    color_cmd.push(checksum);
    color_cmd
}

/// Encodes the command frame for a color: its HSV conversion laid out as
/// `command_bytes` describes.
pub fn encode_color(c: &Color) -> (r: Vec<u8>)
    ensures
        r@ == command_bytes(*c),
{
    let (hue, saturation, brightness) = c.to_hsv();
    let cmd = encode_color_command(hue, saturation, brightness);
    proof {
        let h = hsv_hue(c.red as int, c.green as int, c.blue as int);
        let s = hsv_saturation(c.red as int, c.green as int, c.blue as int);
        let v = hsv_value(c.red as int, c.green as int, c.blue as int);
        let prefix = seq![
            0x78u8,
            0x86u8,
            0x04u8,
            (h % 256) as u8,
            (h / 256) as u8,
            s as u8,
            v as u8,
        ];
        assert(command_bytes(*c) == prefix.push((sum_bytes(prefix) % 256) as u8));
        assert(cmd@.take(7) =~= prefix);
        assert(cmd@[7] as int == sum_bytes(prefix) % 256);
        lemma_sum_bytes_nonneg(prefix);
        lemma_small_mod((sum_bytes(prefix) % 256) as nat, 256);
        assert(cmd@ =~= prefix.push((sum_bytes(prefix) % 256) as u8));
    }
    cmd
}

/// Law: in an 8-byte frame whose last byte is the mod-256 sum of the first
/// seven, the whole frame sums to 0 mod 256 whenever that prefix sum is
/// divisible by 128. (With any other prefix sum it does not: the checksum
/// byte is counted once more in the total, doubling the residue.)
pub proof fn lemma_frame_sum_zero(s: Seq<u8>)
    requires
        s.len() == 8,
        s[7] as int == sum_bytes(s.take(7)) % 256,
        sum_bytes(s.take(7)) % 128 == 0,
    ensures
        sum_bytes(s) % 256 == 0,
{
    let prefix = s.take(7);
    assert(s.drop_last() =~= prefix);
    assert(sum_bytes(s) == sum_bytes(prefix) + s[7]);
    let a = sum_bytes(prefix);
    assert(a >= 0) by {
        lemma_sum_bytes_nonneg(prefix);
    }
    assert((a + a % 256) % 256 == 0) by (nonlinear_arith)
        requires
            a >= 0,
            a % 128 == 0,
    ;
}

/// The sum of a byte sequence is never negative.
pub proof fn lemma_sum_bytes_nonneg(s: Seq<u8>)
    ensures
        sum_bytes(s) >= 0,
    decreases s.len(),
{
    if s.len() > 0 {
        lemma_sum_bytes_nonneg(s.drop_last());
    }
}

} // verus!

//! Pixel-level image handling: conversions between pixel encodings,
//! histograms, colour detection, thumbnail sampling and the background peaks
//! used by the automatic white balance.
use vstd::prelude::*;

verus! {

// ---------------------------------------------------------------------------
// Pixel conversions
// ---------------------------------------------------------------------------

/// A camera sample limited to the 16-bit range.
pub open spec fn clamp_u16_spec(v: i32) -> u16 {
    if v < 0 {
        0
    } else if v > 65535 {
        65535
    } else {
        v as u16
    }
}

/// Camera samples limited to the 16-bit range, as the ASCOM image array is
/// turned into 16-bit pixels.
pub fn clamp_pixels_to_u16(data: &Vec<i32>) -> (r: Vec<u16>)
    ensures
        r@.len() == data@.len(),
        forall|i: int| 0 <= i < data@.len() ==> r@[i] == clamp_u16_spec(#[trigger] data@[i]),
{
    let mut r: Vec<u16> = Vec::new();
    let mut i: usize = 0;
    while i < data.len()
        invariant
            i <= data@.len(),
            r@.len() == i,
            forall|k: int| 0 <= k < i ==> r@[k] == clamp_u16_spec(#[trigger] data@[k]),
        decreases data.len() - i,
    {
        let v = data[i];
        let c: u16 = if v < 0 {
            0
        } else if v > 65535 {
            65535
        } else {
            v as u16
        };
        r.push(c);
        i = i + 1;
    }
    r
}

/// Little-endian bytes of 16-bit pixels, two per pixel, low byte first.
pub fn u16_to_le_bytes(data: &Vec<u16>) -> (r: Vec<u8>)
    requires
        data@.len() * 2 <= usize::MAX,
    ensures
        r@.len() == data@.len() * 2,
        forall|i: int|
            0 <= i < data@.len() ==> #[trigger] r@[2 * i] == (data@[i] % 256) as u8 && r@[2 * i
                + 1] == (data@[i] / 256) as u8,
{
    let mut r: Vec<u8> = Vec::new();
    let mut i: usize = 0;
    while i < data.len()
        invariant
            i <= data@.len(),
            data@.len() * 2 <= usize::MAX,
            r@.len() == 2 * i,
            forall|k: int|
                0 <= k < i ==> #[trigger] r@[2 * k] == (data@[k] % 256) as u8 && r@[2 * k + 1]
                    == (data@[k] / 256) as u8,
        decreases data.len() - i,
    {
        let v = data[i];
        r.push((v % 256) as u8);
        r.push((v / 256) as u8);
        proof {
            assert forall|k: int| 0 <= k < i + 1 implies #[trigger] r@[2 * k] == (data@[k] % 256) as u8
                && r@[2 * k + 1] == (data@[k] / 256) as u8 by {
                if k < i {
                    assert(r@[2 * k] == r@.take(2 * i)[2 * k]);
                }
            }
        }
        i = i + 1;
    }
    r
}

/// 16-bit pixels from bytes taken two at a time, low byte first; a trailing
/// odd byte is ignored.
pub fn le_bytes_to_u16(bytes: &Vec<u8>) -> (r: Vec<u16>)
    ensures
        r@.len() == bytes@.len() / 2,
        forall|i: int|
            0 <= i < r@.len() ==> #[trigger] r@[i] == bytes@[2 * i] as int + 256 * bytes@[2 * i
                + 1] as int,
{
    let len = bytes.len();
    let n = len / 2;
    let mut r: Vec<u16> = Vec::new();
    let mut i: usize = 0;
    while i < n
        invariant
            len == bytes@.len(),
            n == bytes@.len() / 2,
            i <= n,
            r@.len() == i,
            forall|k: int|
                0 <= k < i ==> #[trigger] r@[k] == bytes@[2 * k] as int + 256 * bytes@[2 * k
                    + 1] as int,
        decreases n - i,
    {
        assert(2 * i + 1 < bytes@.len());
        let lo = bytes[2 * i] as u16;
        let hi = bytes[2 * i + 1] as u16;
        r.push(lo + 256 * hi);
        i = i + 1;
    }
    r
}

/// 16-bit pixels from 8-bit ones: each value moves to the high byte.
pub fn u8_to_u16_pixels(bytes: &Vec<u8>) -> (r: Vec<u16>)
    ensures
        r@.len() == bytes@.len(),
        forall|i: int| 0 <= i < r@.len() ==> #[trigger] r@[i] == 256 * bytes@[i] as int,
{
    let mut r: Vec<u16> = Vec::new();
    let mut i: usize = 0;
    while i < bytes.len()
        invariant
            i <= bytes@.len(),
            r@.len() == i,
            forall|k: int| 0 <= k < i ==> #[trigger] r@[k] == 256 * bytes@[k] as int,
        decreases bytes.len() - i,
    {
        let b = bytes[i] as u16;
        r.push(b * 256);
        i = i + 1;
    }
    r
}

/// 16-bit pixels from big-endian byte pairs; a trailing odd byte is ignored.
pub fn be_bytes_to_u16(bytes: &Vec<u8>) -> (r: Vec<u16>)
    ensures
        r@.len() == bytes@.len() / 2,
        forall|i: int|
            0 <= i < r@.len() ==> #[trigger] r@[i] == 256 * bytes@[2 * i] as int + bytes@[2 * i
                + 1] as int,
{
    let len = bytes.len();
    let n = len / 2;
    let mut r: Vec<u16> = Vec::new();
    let mut i: usize = 0;
    while i < n
        invariant
            len == bytes@.len(),
            n == bytes@.len() / 2,
            i <= n,
            r@.len() == i,
            forall|k: int|
                0 <= k < i ==> #[trigger] r@[k] == 256 * bytes@[2 * k] as int + bytes@[2 * k
                    + 1] as int,
        decreases n - i,
    {
        assert(2 * i + 1 < bytes@.len());
        let hi = bytes[2 * i] as u16;
        let lo = bytes[2 * i + 1] as u16;
        r.push(hi * 256 + lo);
        i = i + 1;
    }
    r
}

/// An INDI image BLOB holds a FITS file when it starts with `SIMPLE`.
pub open spec fn is_fits_blob(d: Seq<u8>) -> bool {
    d.len() >= 6 && d[0] == 83 && d[1] == 73 && d[2] == 77 && d[3] == 80 && d[4] == 76 && d[5] == 69
}

/// Number of 80-byte header cards (the last one may be short) in `d`.
pub open spec fn card_count(d: Seq<u8>) -> int {
    ((d.len() + 79) / 80) as int
}

/// The card starting at byte `start` begins with `END`.
pub open spec fn card_is_end(d: Seq<u8>, start: int) -> bool {
    start + 3 <= d.len() && d[start] == 69 && d[start + 1] == 78 && d[start + 2] == 68
}

/// `n` rounded up to a whole number of 2880-byte FITS blocks.
pub open spec fn round_up_block(n: int) -> int {
    ((n + 2879) / 2880) * 2880
}

/// Where the pixel data starts, searching the cards from card `i` on: after
/// the block holding the first `END` card, or after the last card when there is none.
pub open spec fn header_end_from(d: Seq<u8>, i: int) -> int
    decreases card_count(d) - i,
{
    if i < 0 || i >= card_count(d) {
        80 * i
    } else if card_is_end(d, 80 * i) {
        round_up_block(80 * (i + 1))
    } else {
        header_end_from(d, i + 1)
    }
}

/// Where the pixel data of a FITS BLOB starts.
pub open spec fn fits_data_offset(d: Seq<u8>) -> int {
    header_end_from(d, 0)
}

/// Whether an INDI BLOB starts with the FITS `SIMPLE` keyword.
pub fn blob_is_fits(data: &Vec<u8>) -> (r: bool)
    ensures
        r == is_fits_blob(data@),
{
    data.len() >= 6 && data[0] == 83 && data[1] == 73 && data[2] == 77 && data[3] == 80 && data[4] == 76
        && data[5] == 69
}

/// The byte at which the pixel data of a FITS BLOB starts.
pub fn fits_header_end(data: &Vec<u8>) -> (r: usize)
    requires
        data@.len() + 3000 <= usize::MAX,
    ensures
        r == fits_data_offset(data@),
{
    let len = data.len();
    let cards = (len + 79) / 80;
    let mut i: usize = 0;
    while i < cards
        invariant
            len == data@.len(),
            len + 3000 <= usize::MAX,
            cards == card_count(data@),
            i <= cards,
            header_end_from(data@, 0) == header_end_from(data@, i as int),
        decreases cards - i,
    {
        let start = 80 * i;
        if start + 3 <= len && data[start] == 69 && data[start + 1] == 78 && data[start + 2] == 68 {
            let end = 80 * (i + 1);
            return ((end + 2879) / 2880) * 2880;
        }
        i = i + 1;
    }
    80 * i
}

/// The bytes of `data` from `start` on.
fn tail_bytes(data: &Vec<u8>, start: usize) -> (r: Vec<u8>)
    requires
        start <= data@.len(),
    ensures
        r@ == data@.subrange(start as int, data@.len() as int),
{
    let mut r: Vec<u8> = Vec::new();
    let mut j: usize = start;
    while j < data.len()
        invariant
            start <= j <= data@.len(),
            r@ == data@.subrange(start as int, j as int),
        decreases data.len() - j,
    {
        r.push(data[j]);
        j = j + 1;
        assert(r@ =~= data@.subrange(start as int, j as int));
    }
    r
}

/// The 16-bit pixels of an INDI image BLOB: a FITS file's big-endian data
/// after its header, otherwise the raw bytes taken low byte first. The FITS
/// header must end within the BLOB.
pub fn indi_blob_pixels(data: &Vec<u8>) -> (r: Vec<u16>)
    requires
        data@.len() + 3000 <= usize::MAX,
        is_fits_blob(data@) ==> fits_data_offset(data@) <= data@.len(),
    ensures
        is_fits_blob(data@) ==> ({
            let off = fits_data_offset(data@);
            &&& r@.len() == (data@.len() - off) / 2
            &&& forall|i: int|
                0 <= i < r@.len() ==> #[trigger] r@[i] == 256 * data@[off + 2 * i] as int + data@[off
                    + 2 * i + 1] as int
        }),
        !is_fits_blob(data@) ==> r@.len() == data@.len() / 2 && forall|i: int|
            0 <= i < r@.len() ==> #[trigger] r@[i] == data@[2 * i] as int + 256 * data@[2 * i + 1] as int,
{
    if blob_is_fits(data) {
        let off = fits_header_end(data);
        let tail = tail_bytes(data, off);
        be_bytes_to_u16(&tail)
    } else {
        le_bytes_to_u16(data)
    }
}

/// 16-bit pixels from big-endian 32-bit samples, keeping the high half;
/// trailing bytes short of four are ignored.
pub fn be_u32_bytes_to_u16(bytes: &Vec<u8>) -> (r: Vec<u16>)
    ensures
        r@.len() == bytes@.len() / 4,
        forall|i: int|
            0 <= i < r@.len() ==> #[trigger] r@[i] == 256 * bytes@[4 * i] as int + bytes@[4 * i
                + 1] as int,
{
    let len = bytes.len();
    let n = len / 4;
    let mut r: Vec<u16> = Vec::new();
    let mut i: usize = 0;
    while i < n
        invariant
            len == bytes@.len(),
            n == bytes@.len() / 4,
            i <= n,
            r@.len() == i,
            forall|k: int|
                0 <= k < i ==> #[trigger] r@[k] == 256 * bytes@[4 * k] as int + bytes@[4 * k
                    + 1] as int,
        decreases n - i,
    {
        assert(4 * i + 3 < bytes@.len());
        let hi = bytes[4 * i] as u16;
        let lo = bytes[4 * i + 1] as u16;
        r.push(hi * 256 + lo);
        i = i + 1;
    }
    r
}

/// The 16-bit sample the plate-solver file gets for display pixel `i`: the
/// display value moved to the high byte; for colour images the integer mean
/// of the pixel's three channels.
pub open spec fn solver_sample(display: Seq<u8>, is_color: bool, i: int) -> int {
    if is_color {
        256 * ((display[3 * i] as int + display[3 * i + 1] as int + display[3 * i + 2] as int) / 3)
    } else {
        256 * display[i] as int
    }
}

/// Bytes `2i` and `2i + 1` of `r` hold the low and high byte of sample `i`.
pub open spec fn solver_pair_ok(r: Seq<u8>, display: Seq<u8>, is_color: bool, i: int) -> bool {
    r[2 * i] as int == solver_sample(display, is_color, i) % 256 && r[2 * i + 1] as int
        == solver_sample(display, is_color, i) / 256
}

/// Number of samples the plate-solver file gets.
pub open spec fn solver_len(display: Seq<u8>, is_color: bool) -> int {
    if is_color {
        (display.len() / 3) as int
    } else {
        display.len() as int
    }
}

/// Little-endian 16-bit samples for the plate solver from 8-bit display data.
pub fn display_to_solver_bytes(display: &Vec<u8>, is_color: bool) -> (r: Vec<u8>)
    requires
        is_color ==> display@.len() % 3 == 0,
        display@.len() * 2 <= usize::MAX,
    ensures
        r@.len() == 2 * solver_len(display@, is_color),
        forall|i: int|
            0 <= i < solver_len(display@, is_color) ==> solver_pair_ok(r@, display@, is_color, i),
{
    let len = display.len();
    let n = if is_color {
        len / 3
    } else {
        len
    };
    let mut r: Vec<u8> = Vec::new();
    let mut i: usize = 0;
    while i < n
        invariant
            len == display@.len(),
            n == solver_len(display@, is_color),
            is_color ==> display@.len() % 3 == 0,
            display@.len() * 2 <= usize::MAX,
            i <= n,
            r@.len() == 2 * i,
            forall|k: int| 0 <= k < i ==> solver_pair_ok(r@, display@, is_color, k),
        decreases n - i,
    {
        let v: u16 = if is_color {
            assert(3 * i + 2 < len);
            let sum = display[3 * i] as u32 + display[3 * i + 1] as u32 + display[3 * i + 2] as u32;
            ((sum / 3) as u16) * 256
        } else {
            (display[i] as u16) * 256
        };
        let ghost before = r@;
        r.push((v % 256) as u8);
        r.push((v / 256) as u8);
        proof {
            assert forall|k: int| 0 <= k < i + 1 implies solver_pair_ok(r@, display@, is_color, k) by {
                if k < i {
                    assert(solver_pair_ok(before, display@, is_color, k));
                    assert(r@[2 * k] == before[2 * k]);
                    assert(r@[2 * k + 1] == before[2 * k + 1]);
                }
            }
        }
        i = i + 1;
    }
    r
}

// ---------------------------------------------------------------------------
// Histograms
// ---------------------------------------------------------------------------

/// Number of entries of `s` equal to `v`.
pub open spec fn count_u8(s: Seq<u8>, v: int) -> nat
    decreases s.len(),
{
    if s.len() == 0 {
        0
    } else {
        count_u8(s.drop_last(), v) + if s.last() == v {
            1nat
        } else {
            0nat
        }
    }
}

proof fn lemma_count_u8_step(s: Seq<u8>, k: int, v: int)
    requires
        0 <= k < s.len(),
    ensures
        count_u8(s.take(k + 1), v) == count_u8(s.take(k), v) + if s[k] == v {
            1nat
        } else {
            0nat
        },
{
    assert(s.take(k + 1).drop_last() =~= s.take(k));
}

proof fn lemma_count_u8_le(s: Seq<u8>, v: int)
    ensures
        count_u8(s, v) <= s.len(),
    decreases s.len(),
{
    if s.len() > 0 {
        lemma_count_u8_le(s.drop_last(), v);
    }
}

/// Total of the first `k` bins of the histogram of `s`.
pub open spec fn counts_below(s: Seq<u8>, k: int) -> nat
    decreases k,
{
    if k <= 0 {
        0
    } else {
        counts_below(s, k - 1) + count_u8(s, k - 1)
    }
}

/// Sum of the entries of a histogram.
pub open spec fn bins_total(h: Seq<u32>) -> nat
    decreases h.len(),
{
    if h.len() == 0 {
        0
    } else {
        bins_total(h.drop_last()) + (h.last() as nat)
    }
}

proof fn lemma_counts_below_push(s: Seq<u8>, k: int)
    requires
        s.len() > 0,
        0 <= k,
    ensures
        counts_below(s, k) == counts_below(s.drop_last(), k) + if (s.last() as int) < k {
            1nat
        } else {
            0nat
        },
    decreases k,
{
    if k > 0 {
        lemma_counts_below_push(s, k - 1);
    }
}

/// Law: the 256 bins of a histogram of 8-bit values together count every value once.
pub proof fn law_histogram_counts_every_pixel(s: Seq<u8>)
    ensures
        counts_below(s, 256) == s.len(),
    decreases s.len(),
{
    if s.len() > 0 {
        law_histogram_counts_every_pixel(s.drop_last());
        lemma_counts_below_push(s, 256);
    } else {
        lemma_counts_below_zero(s, 256);
    }
}

proof fn lemma_counts_below_zero(s: Seq<u8>, k: int)
    requires
        s.len() == 0,
    ensures
        counts_below(s, k) == 0,
    decreases k,
{
    if k > 0 {
        lemma_counts_below_zero(s, k - 1);
    }
}

proof fn lemma_bins_total_matches(h: Seq<u32>, s: Seq<u8>, k: int)
    requires
        0 <= k <= h.len(),
        forall|b: int| 0 <= b < h.len() ==> #[trigger] h[b] == count_u8(s, b),
    ensures
        bins_total(h.take(k)) == counts_below(s, k),
    decreases k,
{
    if k > 0 {
        lemma_bins_total_matches(h, s, k - 1);
        assert(h.take(k).drop_last() =~= h.take(k - 1));
    } else {
        assert(h.take(0).len() == 0);
    }
}

/// The 256-bin histogram of 8-bit display pixels: bin `b` counts the pixels of value `b`.
pub fn display_histogram(data: &Vec<u8>) -> (r: Vec<u32>)
    requires
        data@.len() <= u32::MAX,
    ensures
        r@.len() == 256,
        forall|b: int| 0 <= b < 256 ==> #[trigger] r@[b] == count_u8(data@, b),
        bins_total(r@) == data@.len(),
{
    let mut hist: Vec<u32> = Vec::new();
    let mut b: usize = 0;
    while b < 256
        invariant
            b <= 256,
            hist@.len() == b,
            forall|k: int| 0 <= k < b ==> #[trigger] hist@[k] == 0,
        decreases 256 - b,
    {
        hist.push(0);
        b = b + 1;
    }
    let mut i: usize = 0;
    assert(data@.take(0) =~= Seq::<u8>::empty());
    while i < data.len()
        invariant
            i <= data@.len(),
            data@.len() <= u32::MAX,
            hist@.len() == 256,
            forall|k: int| 0 <= k < 256 ==> #[trigger] hist@[k] == count_u8(data@.take(i as int), k),
        decreases data.len() - i,
    {
        let p = data[i] as usize;
        proof {
            assert forall|k: int| 0 <= k < 256 implies count_u8(data@.take(i + 1), k) == count_u8(data@.take(i as int), k) + if data@[i as int] == k { 1nat } else { 0nat } by {
                lemma_count_u8_step(data@, i as int, k);
            }
            lemma_count_u8_le(data@.take(i as int), p as int);
        }
        let c = hist[p];
        hist.set(p, c + 1);
        i = i + 1;
    }
    assert(data@.take(data@.len() as int) =~= data@);
    proof {
        lemma_bins_total_matches(hist@, data@, 256);
        assert(hist@.take(256) =~= hist@);
        law_histogram_counts_every_pixel(data@);
    }
    hist
}

// ---------------------------------------------------------------------------
// Colour
// ---------------------------------------------------------------------------

/// Colour filter array layouts.
#[derive(Debug, Clone, Copy, PartialEq, Eq, Structural)]
pub enum BayerPattern {
    RGGB,
    GRBG,
    GBRG,
    BGGR,
}

/// A frame is debayered when the camera reports a colour sensor and a Bayer offset.
pub fn is_color_frame(sensor_type: &Option<String>, bayer_offset: Option<(i32, i32)>) -> (r: bool)
    ensures
        r == (sensor_type matches Some(t) && t@ == "Color"@ && bayer_offset is Some),
{
    match sensor_type {
        Some(t) => crate::text::str_eq(t.as_str(), "Color") && bayer_offset.is_some(),
        None => false,
    }
}

pub open spec fn bayer_pattern_spec(is_color: bool, offset: Option<(i32, i32)>) -> BayerPattern {
    if is_color {
        match offset {
            Some((0, 0)) => BayerPattern::RGGB,
            Some((1, 0)) => BayerPattern::GRBG,
            Some((0, 1)) => BayerPattern::GBRG,
            Some((1, 1)) => BayerPattern::BGGR,
            _ => BayerPattern::RGGB,
        }
    } else {
        BayerPattern::RGGB
    }
}

/// The Bayer layout named by the sensor's x/y offset; RGGB when the offset is
/// none of the four known ones or the frame is monochrome.
pub fn bayer_pattern_for(is_color: bool, offset: Option<(i32, i32)>) -> (r: BayerPattern)
    ensures
        r == bayer_pattern_spec(is_color, offset),
{
    if is_color {
        match offset {
            Some((0, 0)) => BayerPattern::RGGB,
            Some((1, 0)) => BayerPattern::GRBG,
            Some((0, 1)) => BayerPattern::GBRG,
            Some((1, 1)) => BayerPattern::BGGR,
            _ => BayerPattern::RGGB,
        }
    } else {
        BayerPattern::RGGB
    }
}

// ---------------------------------------------------------------------------
// Thumbnails
// ---------------------------------------------------------------------------

/// The thumbnail pixel at column `x`, row `y`: the source pixel at
/// `(x * scale, y * scale)`, or 0 where the source has no such pixel.
pub open spec fn sample_spec(data: Seq<u16>, width: int, scale: int, x: int, y: int) -> u16 {
    let idx = (y * scale) * width + x * scale;
    if idx < data.len() {
        data[idx]
    } else {
        0
    }
}

/// Nearest-neighbour downscaling by `scale`, row by row.
pub fn downscale(data: &Vec<u16>, width: u32, height: u32, scale: u32) -> (r: Vec<u16>)
    requires
        scale >= 1,
        width as int * height as int <= u32::MAX,
    ensures
        r@.len() == (width / scale) as int * (height / scale) as int,
        forall|y: int, x: int|
            0 <= y < height / scale && 0 <= x < width / scale ==> #[trigger] r@[y * (width
                / scale) as int + x] == sample_spec(data@, width as int, scale as int, x, y),
{
    let new_w = width / scale;
    let new_h = height / scale;
    let mut r: Vec<u16> = Vec::new();
    let mut y: u32 = 0;
    while y < new_h
        invariant
            scale >= 1,
            width as int * height as int <= u32::MAX,
            new_w == width / scale,
            new_h == height / scale,
            y <= new_h,
            r@.len() == y as int * new_w as int,
            forall|yy: int, x: int|
                0 <= yy < y && 0 <= x < new_w ==> #[trigger] r@[yy * new_w as int + x]
                    == sample_spec(data@, width as int, scale as int, x, yy),
        decreases new_h - y,
    {
        let mut x: u32 = 0;
        let ghost row_start = r@;
        while x < new_w
            invariant
                scale >= 1,
                width as int * height as int <= u32::MAX,
                new_w == width / scale,
                new_h == height / scale,
                y < new_h,
                x <= new_w,
                r@.len() == y as int * new_w as int + x,
                r@.take(y as int * new_w as int) == row_start,
                row_start.len() == y as int * new_w as int,
                forall|xx: int| 0 <= xx < x ==> #[trigger] r@[y as int * new_w as int + xx]
                    == sample_spec(data@, width as int, scale as int, xx, y as int),
            decreases new_w - x,
        {
            proof {
                assert(y * scale < height) by (nonlinear_arith)
                    requires
                        y < height / scale,
                        scale >= 1,
                ;
                assert(x * scale < width) by (nonlinear_arith)
                    requires
                        x < width / scale,
                        scale >= 1,
                ;
            }
            let sy = y * scale;
            let sx = x * scale;
            proof {
                assert(sy * width + sx < width * height) by (nonlinear_arith)
                    requires
                        sy < height,
                        sx < width,
                ;
            }
            let idx = (sy * width + sx) as usize;
            let v = if idx < data.len() {
                data[idx]
            } else {
                0
            };
            r.push(v);
            x = x + 1;
        }
        proof {
            assert forall|yy: int, xx: int|
                0 <= yy < y + 1 && 0 <= xx < new_w implies #[trigger] r@[yy * new_w as int + xx]
                == sample_spec(data@, width as int, scale as int, xx, yy) by {
                if yy < y {
                    assert(yy * new_w as int + xx < y as int * new_w as int) by (nonlinear_arith)
                        requires
                            yy < y,
                            xx < new_w,
                    ;
                    assert(r@[yy * new_w as int + xx] == row_start[yy * new_w as int + xx]);
                }
            }
            assert((y + 1) as int * new_w as int == y as int * new_w as int + new_w as int) by (nonlinear_arith);
        }
        y = y + 1;
    }
    assert(y as int * new_w as int == (width / scale) as int * (height / scale) as int) by (nonlinear_arith)
        requires
            y == new_h,
            new_w == width / scale,
            new_h == height / scale,
    ;
    r
}

// ---------------------------------------------------------------------------
// Background peaks for the automatic white balance
// ---------------------------------------------------------------------------

/// Number of the first `n` RGB pixels of `img` whose channel `ch` has value `v`.
pub open spec fn channel_count(img: Seq<u16>, ch: int, v: int, n: int) -> nat
    decreases n,
{
    if n <= 0 {
        0
    } else {
        channel_count(img, ch, v, n - 1) + if img[3 * (n - 1) + ch] == v {
            1nat
        } else {
            0nat
        }
    }
}

proof fn lemma_channel_count_le(img: Seq<u16>, ch: int, v: int, n: int)
    requires
        n >= 0,
    ensures
        channel_count(img, ch, v, n) <= n,
    decreases n,
{
    if n > 0 {
        lemma_channel_count_le(img, ch, v, n - 1);
    }
}

/// The lowest value searched for a background peak; darker values are clipping noise.
pub const PEAK_SEARCH_START: usize = 100;

/// `p` is the background peak of channel `ch`: the most frequent value from
/// 100 up (the lowest one on a tie), or 0 when no pixel has such a value.
pub open spec fn is_channel_peak(img: Seq<u16>, ch: int, p: int) -> bool {
    let n = img.len() / 3;
    ||| p == 0 && forall|v: int| 100 <= v < 65536 ==> #[trigger] channel_count(img, ch, v, n as int) == 0
    ||| {
        &&& 100 <= p < 65536
        &&& channel_count(img, ch, p, n as int) > 0
        &&& forall|v: int|
            100 <= v < 65536 ==> #[trigger] channel_count(img, ch, v, n as int) <= channel_count(
                img,
                ch,
                p,
                n as int,
            )
        &&& forall|v: int|
            100 <= v < p ==> #[trigger] channel_count(img, ch, v, n as int) < channel_count(
                img,
                ch,
                p,
                n as int,
            )
    }
}

/// The background peak of one channel of an interleaved RGB image.
pub fn channel_peak(img: &Vec<u16>, ch: usize) -> (r: u16)
    requires
        ch < 3,
        img@.len() % 3 == 0,
        img@.len() / 3 <= u32::MAX,
    ensures
        is_channel_peak(img@, ch as int, r as int),
{
    let len = img.len();
    let n = len / 3;
    let mut hist: Vec<u32> = Vec::new();
    let mut b: usize = 0;
    while b < 65536
        invariant
            b <= 65536,
            hist@.len() == b,
            forall|k: int| 0 <= k < b ==> #[trigger] hist@[k] == 0,
        decreases 65536 - b,
    {
        hist.push(0);
        b = b + 1;
    }
    let mut i: usize = 0;
    while i < n
        invariant
            ch < 3,
            len == img@.len(),
            n == img@.len() / 3,
            img@.len() % 3 == 0,
            n <= u32::MAX,
            i <= n,
            hist@.len() == 65536,
            forall|k: int| 0 <= k < 65536 ==> #[trigger] hist@[k] == channel_count(img@, ch as int, k, i as int),
        decreases n - i,
    {
        assert(3 * i + ch < img@.len());
        let v = img[3 * i + ch] as usize;
        proof {
            lemma_channel_count_le(img@, ch as int, v as int, i as int);
        }
        let c = hist[v];
        hist.set(v, c + 1);
        i = i + 1;
    }
    let mut best: u32 = 0;
    let mut peak: usize = 0;
    let mut v: usize = PEAK_SEARCH_START;
    while v < 65536
        invariant
            100 <= v <= 65536,
            n == img@.len() / 3,
            hist@.len() == 65536,
            forall|k: int| 0 <= k < 65536 ==> #[trigger] hist@[k] == channel_count(img@, ch as int, k, n as int),
            best == 0 ==> peak == 0 && forall|w: int| 100 <= w < v ==> #[trigger] hist@[w] == 0,
            best > 0 ==> 100 <= peak < v && hist@[peak as int] == best
                && (forall|w: int| 100 <= w < v ==> #[trigger] hist@[w] <= best)
                && (forall|w: int| 100 <= w < peak ==> #[trigger] hist@[w] < best),
        decreases 65536 - v,
    {
        if hist[v] > best {
            best = hist[v];
            peak = v;
        }
        v = v + 1;
    }
    proof {
        if best == 0 {
            assert forall|w: int| 100 <= w < 65536 implies #[trigger] channel_count(img@, ch as int, w, n as int) == 0 by {
                assert(hist@[w] == 0);
            }
        } else {
            assert forall|w: int| 100 <= w < 65536 implies #[trigger] channel_count(img@, ch as int, w, n as int) <= channel_count(img@, ch as int, peak as int, n as int) by {
                assert(hist@[w] <= best);
            }
            assert forall|w: int| 100 <= w < peak implies #[trigger] channel_count(img@, ch as int, w, n as int) < channel_count(img@, ch as int, peak as int, n as int) by {
                assert(hist@[w] < best);
            }
        }
    }
    peak as u16
}

/// The background peaks of the red, green and blue channels of an
/// interleaved RGB image, or `None` when the length is not a multiple of
/// three (the image is then left as it is).
pub fn white_balance_peaks(img: &Vec<u16>) -> (r: Option<(u16, u16, u16)>)
    requires
        img@.len() / 3 <= u32::MAX,
    ensures
        match r {
            Some((pr, pg, pb)) => img@.len() % 3 == 0 && is_channel_peak(img@, 0, pr as int)
                && is_channel_peak(img@, 1, pg as int) && is_channel_peak(img@, 2, pb as int),
            None => img@.len() % 3 != 0,
        },
{
    if img.len() % 3 != 0 {
        return None;
    }
    let pr = channel_peak(img, 0);
    let pg = channel_peak(img, 1);
    let pb = channel_peak(img, 2);
    Some((pr, pg, pb))
}

/// Law: the background peak of a channel is unique.
pub proof fn law_channel_peak_unique(img: Seq<u16>, ch: int, p: int, q: int)
    requires
        is_channel_peak(img, ch, p),
        is_channel_peak(img, ch, q),
    ensures
        p == q,
{
    let n = (img.len() / 3) as int;
    if p != q {
        if p == 0 {
            assert(channel_count(img, ch, q, n) == 0);
        } else if q == 0 {
            assert(channel_count(img, ch, p, n) == 0);
        } else if p < q {
            assert(channel_count(img, ch, p, n) < channel_count(img, ch, q, n));
            assert(channel_count(img, ch, p, n) <= channel_count(img, ch, q, n));
            assert(channel_count(img, ch, q, n) <= channel_count(img, ch, p, n));
        } else {
            assert(channel_count(img, ch, q, n) < channel_count(img, ch, p, n));
            assert(channel_count(img, ch, p, n) <= channel_count(img, ch, q, n));
        }
    }
}

} // verus!

verus! {

/// Where the red pixel sits in the 2x2 cell of a Bayer layout, as (x, y).
pub open spec fn red_position(p: BayerPattern) -> (int, int) {
    match p {
        BayerPattern::RGGB => (0, 0),
        BayerPattern::GRBG => (1, 0),
        BayerPattern::GBRG => (0, 1),
        BayerPattern::BGGR => (1, 1),
    }
}

/// Law: for a colour frame with a Bayer offset inside the 2x2 cell, the
/// chosen layout puts the red pixel at that offset; any other case is RGGB.
pub proof fn law_bayer_layout_follows_offset(x: i32, y: i32, is_color: bool)
    ensures
        0 <= x <= 1 && 0 <= y <= 1 ==> red_position(bayer_pattern_spec(true, Some((x, y)))) == (
            x as int,
            y as int,
        ),
        !is_color ==> bayer_pattern_spec(is_color, Some((x, y))) == BayerPattern::RGGB,
        bayer_pattern_spec(true, None) == BayerPattern::RGGB,
        !(0 <= x <= 1 && 0 <= y <= 1) ==> bayer_pattern_spec(true, Some((x, y)))
            == BayerPattern::RGGB,
{
}

} // verus!

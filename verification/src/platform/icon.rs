//! Icons: the largest picture of an icon file, as red, green, blue and alpha bytes.
use vstd::prelude::*;

use crate::text;

verus! {

/// A picture, four bytes to the pixel, row by row from the top.
#[derive(Debug)]
pub struct Rgba {
    pub pixels: Vec<u8>,
    pub width: u32,
    pub height: u32,
}

impl Rgba {
    /// There are four bytes for each pixel.
    pub open spec fn valid(self) -> bool {
        self.pixels@.len() == 4 * (self.width * self.height)
    }
}

/// The widths `ico` reads from an icon file, one for each frame; `None` for a file that is no
/// icon file.
pub uninterp spec fn icon_widths(bytes: Seq<u8>) -> Option<Seq<u32>>;

/// Calls `ico::IconDir::read` and takes each entry's `width`. The widths, and whether the file
/// is one `ico` can read, depend on the bytes alone. There are as many as the two bytes at 4
/// say.
#[verifier::external_body]
fn frame_widths(bytes: &[u8]) -> (r: Option<Vec<u32>>)
    ensures
        r is Some <==> icon_widths(bytes@) is Some,
        r matches Some(w) ==> w@ == icon_widths(bytes@)->0 && w@.len() == short_at(bytes@, 4),
{
    match ico::IconDir::read(std::io::Cursor::new(bytes)) {
        Ok(dir) => Some(dir.entries().iter().map(|e| e.width()).collect()),
        Err(_) => None,
    }
}

/// The picture `ico` decodes from a frame of an icon file: its bytes, width and height; `None`
/// for a frame it cannot decode.
pub uninterp spec fn icon_frame(bytes: Seq<u8>, index: int) -> Option<(Seq<u8>, u32, u32)>;

/// Calls `ico::IconDirEntry::decode` on an entry that `ico::IconDir::read` read. The picture, and
/// whether there is one, depend on the file's bytes and the entry's place alone, and the picture
/// has four bytes for each pixel. `decode` panics on a bitmap whose colour table is too short
/// for one of its pixels, so such a frame is left out.
#[verifier::external_body]
fn decode_frame(bytes: &[u8], index: usize) -> (r: Option<Rgba>)
    requires
        icon_widths(bytes@) matches Some(w) && index < w.len(),
        !outruns_its_colours(bytes@, index as int),
    ensures
        r is Some <==> icon_frame(bytes@, index as int) is Some,
        r matches Some(p) ==> (p.pixels@, p.width, p.height) == icon_frame(
            bytes@,
            index as int,
        )->0 && p.valid(),
{
    let dir = ico::IconDir::read(std::io::Cursor::new(bytes)).unwrap();
    match dir.entries()[index].decode() {
        Ok(p) => Some(
            Rgba { pixels: p.rgba_data().to_vec(), width: p.width(), height: p.height() },
        ),
        Err(_) => None,
    }
}

// --- bitmaps with a colour table ---

/// The number in the two bytes at `at`, the low byte first.
pub open spec fn short_at(bytes: Seq<u8>, at: int) -> int {
    bytes[at] + 0x100 * bytes[at + 1]
}

/// The number in the four bytes at `at`, the low byte first.
pub open spec fn long_at(bytes: Seq<u8>, at: int) -> int {
    bytes[at] + 0x100 * bytes[at + 1] + 0x1_0000 * bytes[at + 2] + 0x100_0000 * bytes[at + 3]
}

/// Where the directory entry of a frame starts.
pub open spec fn entry_at(index: int) -> int {
    6 + 16 * index
}

/// The encoded picture of a frame.
pub open spec fn frame_data(bytes: Seq<u8>, index: int) -> Seq<u8> {
    let size = long_at(bytes, entry_at(index) + 8);
    let start = long_at(bytes, entry_at(index) + 12);
    bytes.subrange(start, start + size)
}

/// The directory entry of a frame, and the picture it points at, lie within the file.
pub open spec fn frame_in_file(bytes: Seq<u8>, index: int) -> bool {
    &&& entry_at(index) + 16 <= bytes.len()
    &&& long_at(bytes, entry_at(index) + 12) + long_at(bytes, entry_at(index) + 8) <= bytes.len()
}

/// The bits that choose a pixel's colour, where the colours are in a table.
pub open spec fn table_bits(data: Seq<u8>) -> int {
    short_at(data, 14)
}

/// How many colours the table of a bitmap may hold.
pub open spec fn full_table(bits: int) -> int {
    if bits == 1 {
        2
    } else if bits == 4 {
        16
    } else {
        256
    }
}

/// How many bytes a row of pixels takes: whole groups of four.
pub open spec fn row_bytes(width: int, bits: int) -> int {
    (width * bits + 31) / 32 * 4
}

/// What the bit for a pixel weighs in its byte.
pub open spec fn bit_weight(col: int) -> int {
    if col % 8 == 0 {
        128
    } else if col % 8 == 1 {
        64
    } else if col % 8 == 2 {
        32
    } else if col % 8 == 3 {
        16
    } else if col % 8 == 4 {
        8
    } else if col % 8 == 5 {
        4
    } else if col % 8 == 6 {
        2
    } else {
        1
    }
}

/// The colour number of the pixel in column `col`, in the byte that holds it.
pub open spec fn colour_number(byte: int, bits: int, col: int) -> int {
    if bits == 1 {
        byte / bit_weight(col) % 2
    } else if bits == 4 {
        if col % 2 == 0 {
            byte / 16
        } else {
            byte % 16
        }
    } else {
        byte
    }
}

/// Where the byte of a pixel stands in a bitmap with `colours` table entries.
pub open spec fn pixel_at(width: int, bits: int, colours: int, row: int, col: int) -> int {
    40 + 4 * colours + row * row_bytes(width, bits) + col * bits / 8
}

/// A bitmap with a colour table that is shorter than it may be.
pub open spec fn has_short_table(data: Seq<u8>) -> bool {
    let width = long_at(data, 4);
    let height = long_at(data, 8) / 2;
    let bits = table_bits(data);
    &&& data.len() >= 40
    &&& long_at(data, 0) == 40
    &&& 1 <= width < 0x8000_0000
    &&& long_at(data, 8) % 2 == 0
    &&& 1 <= height < 0x4000_0000
    &&& width * height <= 0x400_0000
    &&& bits == 1 || bits == 4 || bits == 8
    &&& 0 < long_at(data, 32) < full_table(bits)
}

/// The pixel in row `row` and column `col` is in the data and has a colour that is not in the
/// table.
pub open spec fn lacks_colour(data: Seq<u8>, row: int, col: int) -> bool {
    let bits = table_bits(data);
    let colours = long_at(data, 32);
    let at = pixel_at(long_at(data, 4), bits, colours, row, col);
    at < data.len() && colour_number(data[at] as int, bits, col) >= colours
}

/// Some pixel of the frame has a colour that is not in the frame's table.
pub open spec fn outruns_its_colours(bytes: Seq<u8>, index: int) -> bool {
    let data = frame_data(bytes, index);
    &&& frame_in_file(bytes, index)
    &&& has_short_table(data)
    &&& exists|row: int, col: int|
        0 <= row < long_at(data, 8) / 2 && 0 <= col < long_at(data, 4) && #[trigger] lacks_colour(
            data,
            row,
            col,
        )
}

fn short_of(bytes: &[u8], at: usize) -> (r: u64)
    requires
        at + 2 <= bytes.len(),
    ensures
        r == short_at(bytes@, at as int),
        r <= 0xffff,
{
    bytes[at] as u64 + 0x100 * bytes[at + 1] as u64
}

fn long_of(bytes: &[u8], at: usize) -> (r: u64)
    requires
        at + 4 <= bytes.len(),
    ensures
        r == long_at(bytes@, at as int),
        r <= 0xffff_ffff,
{
    short_of(bytes, at) + 0x1_0000 * short_of(bytes, at + 2)
}

fn weight_of(col: u64) -> (r: u8)
    ensures
        r == bit_weight(col as int),
        r > 0,
{
    match col % 8 {
        0 => 128,
        1 => 64,
        2 => 32,
        3 => 16,
        4 => 8,
        5 => 4,
        6 => 2,
        _ => 1,
    }
}

fn colour_of(byte: u8, bits: u64, col: u64) -> (r: u64)
    ensures
        r == colour_number(byte as int, bits as int, col as int),
{
    if bits == 1 {
        (byte / weight_of(col) % 2) as u64
    } else if bits == 4 {
        if col % 2 == 0 {
            (byte / 16) as u64
        } else {
            (byte % 16) as u64
        }
    } else {
        byte as u64
    }
}

/// Whether a row of pixels has a colour that is not in the table.
fn row_lacks_colour(data: &[u8], row: u64) -> (r: bool)
    requires
        has_short_table(data@),
        row < long_at(data@, 8) / 2,
    ensures
        r == exists|col: int|
            0 <= col < long_at(data@, 4) && #[trigger] lacks_colour(data@, row as int, col),
{
    let len: usize = data.len();
    let width: u64 = long_of(data, 4);
    let bits: u64 = short_of(data, 14);
    let colours: u64 = long_of(data, 32);
    let stride: u64 = (width * bits + 31) / 32 * 4;
    proof {
        let height = long_at(data@, 8) / 2;
        assert(row * stride <= 0x400_0000 * 0x24) by (nonlinear_arith)
            requires
                row < height,
                1 <= width,
                width * height <= 0x400_0000,
                bits <= 8,
                stride == (width * bits + 31) / 32 * 4,
        {
            assert(width * bits <= width * 8);
            assert(stride <= width + 4);
            assert(stride <= 5 * width);
            assert(row * stride <= row * (5 * width));
            assert(row * (5 * width) == 5 * (row * width));
            assert(row * width <= height * width);
            assert(height * width == width * height);
        }
        assert(width <= 0x400_0000) by (nonlinear_arith)
            requires
                1 <= height,
                0 <= width,
                width * height <= 0x400_0000,
        ;
    }
    let base: u64 = 40 + 4 * colours + row * stride;
    let mut col: u64 = 0;
    while col < width
        invariant
            len == data.len(),
            has_short_table(data@),
            width == long_at(data@, 4),
            bits == table_bits(data@),
            bits <= 8,
            colours == long_at(data@, 32),
            width <= 0x400_0000,
            base <= 0x1_0000_0000,
            base == 40 + 4 * colours + row * row_bytes(width as int, bits as int),
            forall|k: int| 0 <= k < col ==> !#[trigger] lacks_colour(data@, row as int, k),
        decreases width - col,
    {
        assert(col * bits <= 0x400_0000 * 8) by (nonlinear_arith)
            requires
                col < width,
                width <= 0x400_0000,
                bits <= 8,
        ;
        let at: u64 = base + col * bits / 8;
        assert(at == pixel_at(width as int, bits as int, colours as int, row as int, col as int));
        if at < len as u64 {
            if colour_of(data[at as usize], bits, col) >= colours {
                assert(lacks_colour(data@, row as int, col as int));
                return true;
            }
        }
        col = col + 1;
    }
    false
}

/// Whether some pixel of the frame has a colour that is not in the frame's table.
fn frame_outruns(bytes: &[u8], index: usize) -> (r: bool)
    requires
        index <= 0xffff,
    ensures
        r == outruns_its_colours(bytes@, index as int),
{
    let len: usize = bytes.len();
    let entry: u64 = 6 + 16 * index as u64;
    if entry + 16 > len as u64 {
        return false;
    }
    let size: u64 = long_of(bytes, entry as usize + 8);
    let start: u64 = long_of(bytes, entry as usize + 12);
    if start + size > len as u64 {
        return false;
    }
    let data = vstd::slice::slice_subrange(bytes, start as usize, (start + size) as usize);
    assert(data@ == frame_data(bytes@, index as int));
    if data.len() < 40 || long_of(data, 0) != 40 {
        return false;
    }
    let width: u64 = long_of(data, 4);
    let twice: u64 = long_of(data, 8);
    let bits: u64 = short_of(data, 14);
    let colours: u64 = long_of(data, 32);
    if width < 1 || width >= 0x8000_0000 || twice % 2 != 0 || twice < 2 || twice >= 0x8000_0000 {
        return false;
    }
    let height: u64 = twice / 2;
    assert(width * height <= 0x8000_0000 * 0x8000_0000) by (nonlinear_arith)
        requires
            width < 0x8000_0000,
            height < 0x8000_0000,
    ;
    if width * height > 0x400_0000 {
        return false;
    }
    let full: u64 = match bits {
        1 => 2,
        4 => 16,
        8 => 256,
        _ => {
            return false;
        },
    };
    if colours == 0 || colours >= full {
        return false;
    }
    let mut row: u64 = 0;
    while row < height
        invariant
            has_short_table(data@),
            data@ == frame_data(bytes@, index as int),
            frame_in_file(bytes@, index as int),
            height == long_at(data@, 8) / 2,
            forall|k: int, col: int|
                0 <= k < row && 0 <= col < long_at(data@, 4) ==> !#[trigger] lacks_colour(
                    data@,
                    k,
                    col,
                ),
        decreases height - row,
    {
        if row_lacks_colour(data, row) {
            return true;
        }
        assert forall|k: int, col: int|
            0 <= k < row + 1 && 0 <= col < long_at(data@, 4) implies !#[trigger] lacks_colour(
            data@,
            k,
            col,
        ) by {
            if k == row {
                assert(!lacks_colour(data@, row as int, col));
            }
        }
        row = row + 1;
    }
    false
}

// --- choosing a frame ---

/// The frame at `i` is the widest one, and the last of those.
pub open spec fn is_largest(widths: Seq<u32>, i: int) -> bool {
    &&& 0 <= i < widths.len()
    &&& forall|j: int| 0 <= j < widths.len() ==> #[trigger] widths[j] <= widths[i]
    &&& forall|j: int| i < j < widths.len() ==> #[trigger] widths[j] < widths[i]
}

/// No two frames are both the one to show.
pub proof fn law_largest_is_unique(widths: Seq<u32>, i: int, j: int)
    requires
        is_largest(widths, i),
        is_largest(widths, j),
    ensures
        i == j,
{
    assert(widths[i] <= widths[j] && widths[j] <= widths[i]);
}

/// The frame to show: the widest one, and the last of those. `None` where there is no frame.
pub fn largest_frame(widths: &Vec<u32>) -> (r: Option<usize>)
    ensures
        match r {
            Some(i) => is_largest(widths@, i as int),
            None => widths@.len() == 0,
        },
{
    if widths.len() == 0 {
        return None;
    }
    let mut best: usize = 0;
    for i in 1..widths.len()
        invariant
            is_largest(widths@.take(i as int), best as int),
            best < i <= widths@.len(),
    {
        let ghost before = widths@.take(i as int);
        let ghost now = widths@.take(i + 1);
        let ghost old_best = best;
        if widths[i] >= widths[best] {
            best = i;
        }
        assert(is_largest(now, best as int)) by {
            assert forall|j: int| 0 <= j < now.len() implies #[trigger] now[j] <= now[best as int] by {
                if j < i {
                    assert(before[j] <= before[old_best as int]);
                }
            }
            assert forall|j: int| best < j < now.len() implies #[trigger] now[j] < now[best as int] by {
                if j < i {
                    assert(before[j] < before[old_best as int]);
                }
            }
        }
    }
    assert(widths@.take(widths@.len() as int) =~= widths@);
    Some(best)
}

/// The frame of an icon file that is shown.
pub open spec fn shown_frame(bytes: Seq<u8>) -> int {
    choose|i: int| is_largest(icon_widths(bytes)->0, i)
}

/// `r` is the picture in an icon file, or says what is wrong with the file.
pub open spec fn shows_icon(bytes: Seq<u8>, what: Seq<char>, r: Result<Rgba, String>) -> bool {
    match icon_widths(bytes) {
        None => r matches Err(e) && e@ == what + " is not a valid ICO"@,
        Some(widths) => if widths.len() == 0 {
            r matches Err(e) && e@ == what + " has no image entries"@
        } else if outruns_its_colours(bytes, shown_frame(bytes)) {
            r matches Err(e) && e@ == "failed to decode icon frame"@
        } else {
            match icon_frame(bytes, shown_frame(bytes)) {
                None => r matches Err(e) && e@ == "failed to decode icon frame"@,
                Some(picture) => r matches Ok(p) && p.valid() && (p.pixels@, p.width, p.height)
                    == picture,
            }
        },
    }
}

/// The picture that a chosen frame gives, or what is wrong with the file `what`: `widths` are
/// those of its frames, and `frame` is what became of decoding the largest one.
pub fn picture(widths: Option<Vec<u32>>, frame: Option<Rgba>, what: &str) -> (r: Result<
    Rgba,
    String,
>)
    ensures
        match (widths, frame) {
            (None, _) => r matches Err(e) && e@ == what@ + " is not a valid ICO"@,
            (Some(w), _) if w@.len() == 0 => r matches Err(e) && e@ == what@
                + " has no image entries"@,
            (Some(w), None) => r matches Err(e) && e@ == "failed to decode icon frame"@,
            (Some(w), Some(p)) => r == Ok::<Rgba, String>(p),
        },
{
    match (widths, frame) {
        (None, _) => {
            let mut s = what.to_owned();
            text::push_text(&mut s, " is not a valid ICO");
            Err(s)
        },
        (Some(w), frame) => if w.len() == 0 {
            let mut s = what.to_owned();
            text::push_text(&mut s, " has no image entries");
            Err(s)
        } else {
            match frame {
                Some(p) => Ok(p),
                None => Err("failed to decode icon frame".to_owned()),
            }
        },
    }
}

/// The largest picture in the icon file `what`, or what is wrong with the file.
pub fn decode_bytes(bytes: &[u8], what: &str) -> (r: Result<Rgba, String>)
    ensures
        shows_icon(bytes@, what@, r),
{
    let widths = frame_widths(bytes);
    let chosen = match &widths {
        Some(w) => largest_frame(w),
        None => None,
    };
    let frame = match chosen {
        Some(i) => {
            proof {
                let w = icon_widths(bytes@)->0;
                assert(i < w.len());
                assert(w.len() == short_at(bytes@, 4));
            }
            if frame_outruns(bytes, i) {
                None
            } else {
                decode_frame(bytes, i)
            }
        },
        None => None,
    };
    proof {
        if let Some(i) = chosen {
            law_largest_is_unique(icon_widths(bytes@)->0, i as int, shown_frame(bytes@));
        }
    }
    picture(widths, frame, what)
}

/// The program's icon from the bytes of its file.
pub fn decode(icon_bytes: &[u8]) -> (r: Result<Rgba, String>)
    ensures
        shows_icon(icon_bytes@, "assets/icon.ico"@, r),
{
    decode_bytes(icon_bytes, "assets/icon.ico")
}

/// The mark of the hosting site from the bytes of its file, white on transparent.
pub fn github(icon_bytes: &[u8]) -> (r: Result<Rgba, String>)
    ensures
        shows_icon(icon_bytes@, "assets/github.ico"@, r),
{
    decode_bytes(icon_bytes, "assets/github.ico")
}

/// The picture of an icon file is its widest frame, the last of those, as it decodes.
pub proof fn law_icon_shows_its_widest_frame(
    bytes: Seq<u8>,
    what: Seq<char>,
    r: Result<Rgba, String>,
    i: int,
)
    requires
        shows_icon(bytes, what, r),
        icon_widths(bytes) is Some,
        is_largest(icon_widths(bytes)->0, i),
    ensures
        r matches Ok(p) ==> icon_frame(bytes, i) == Some((p.pixels@, p.width, p.height)),
        r is Ok <==> icon_frame(bytes, i) is Some && !outruns_its_colours(bytes, i),
{
    law_largest_is_unique(icon_widths(bytes)->0, i, shown_frame(bytes));
}

/// The frame to show is at least as wide as every other and wider than every later one.
pub proof fn law_no_frame_is_wider(widths: Seq<u32>, i: int, j: int)
    requires
        is_largest(widths, i),
        0 <= j < widths.len(),
    ensures
        widths[j] <= widths[i],
        j > i ==> widths[j] < widths[i],
{
}

/// A file that is no icon, or holds no frame, is named in the failure.
pub proof fn law_failures_name_the_file(bytes: Seq<u8>, what: Seq<char>, r: Result<Rgba, String>)
    requires
        shows_icon(bytes, what, r),
    ensures
        icon_widths(bytes) is None ==> (r matches Err(e) && e@ == what + " is not a valid ICO"@),
        icon_widths(bytes) matches Some(w) ==> w.len() == 0 ==> (r matches Err(e) && e@ == what
            + " has no image entries"@),
{
}

/// A picture has red, green, blue and alpha for each of its pixels.
pub proof fn law_pixels_have_four_bytes(p: Rgba)
    ensures
        p.valid() <==> p.pixels@.len() == 4 * (p.width * p.height),
{
}

/// Numbers are written with the low byte first.
pub proof fn law_low_byte_comes_first(a: u8, b: u8, c: u8, d: u8, before: Seq<u8>, after: Seq<u8>)
    ensures
        short_at(before + seq![a, b, c, d] + after, before.len() as int) == a + 256 * b,
        long_at(before + seq![a, b, c, d] + after, before.len() as int) == a + 256 * b + 65536 * c
            + 16777216 * d,
{
}

/// The directory has a header of six bytes and sixteen bytes for each frame. An entry has the
/// picture's size at 8 and its place at 12; both lie in the file where they end within it.
pub proof fn law_directory_entries_follow_each_other(bytes: Seq<u8>, index: int)
    ensures
        entry_at(0) == 6,
        entry_at(index + 1) == entry_at(index) + 16,
        frame_in_file(bytes, index) <==> 22 + 16 * index <= bytes.len() && long_at(
            bytes,
            18 + 16 * index,
        ) + long_at(bytes, 14 + 16 * index) <= bytes.len(),
        frame_data(bytes, index) == bytes.subrange(
            long_at(bytes, 18 + 16 * index),
            long_at(bytes, 18 + 16 * index) + long_at(bytes, 14 + 16 * index),
        ),
{
}

/// A table may hold as many colours as its bits can tell apart, and a row of pixels takes as few
/// groups of four bytes as hold it.
pub proof fn law_rows_are_whole_groups(width: int, bits: int)
    requires
        width >= 0,
        bits >= 0,
    ensures
        full_table(1) == 2,
        full_table(4) == 2 * 2 * 2 * 2,
        full_table(8) == full_table(4) * full_table(4),
        row_bytes(width, bits) % 4 == 0,
        8 * row_bytes(width, bits) >= width * bits,
        8 * row_bytes(width, bits) < width * bits + 32,
{
    assert(width * bits >= 0) by (nonlinear_arith)
        requires
            width >= 0,
            bits >= 0,
    ;
}

/// The first of eight pixels has the highest bit of its byte, each next one half of it. No bit
/// belongs to two pixels or to none: the eight pixels of a byte make the byte.
pub proof fn law_eight_pixels_make_the_byte(byte: u8, col: int)
    ensures
        bit_weight(8 * col) == 128,
        col % 8 != 7 ==> bit_weight(col) == 2 * bit_weight(col + 1),
        col % 8 == 7 ==> bit_weight(col) == 1,
        byte == 128 * colour_number(byte as int, 1, 0) + 64 * colour_number(byte as int, 1, 1) + 32
            * colour_number(byte as int, 1, 2) + 16 * colour_number(byte as int, 1, 3) + 8
            * colour_number(byte as int, 1, 4) + 4 * colour_number(byte as int, 1, 5) + 2
            * colour_number(byte as int, 1, 6) + colour_number(byte as int, 1, 7),
{
    let n = byte as int;
    assert(colour_number(n, 1, 0) == n / 128 % 2);
    assert(colour_number(n, 1, 1) == n / 64 % 2);
    assert(colour_number(n, 1, 2) == n / 32 % 2);
    assert(colour_number(n, 1, 3) == n / 16 % 2);
    assert(colour_number(n, 1, 4) == n / 8 % 2);
    assert(colour_number(n, 1, 5) == n / 4 % 2);
    assert(colour_number(n, 1, 6) == n / 2 % 2);
    assert(colour_number(n, 1, 7) == n % 2);
    lemma_bits_make_the_byte(n);
}

proof fn lemma_bits_make_the_byte(n: int)
    requires
        0 <= n < 256,
    ensures
        n == 128 * (n / 128 % 2) + 64 * (n / 64 % 2) + 32 * (n / 32 % 2) + 16 * (n / 16 % 2) + 8
            * (n / 8 % 2) + 4 * (n / 4 % 2) + 2 * (n / 2 % 2) + n % 2,
{
    assert(n / 2 / 2 == n / 4);
    assert(n / 4 / 2 == n / 8);
    assert(n / 8 / 2 == n / 16);
    assert(n / 16 / 2 == n / 32);
    assert(n / 32 / 2 == n / 64);
    assert(n / 64 / 2 == n / 128);
    assert(n / 128 < 2);
}

/// The first of two pixels has the upper half of its byte and the second the lower; a pixel of
/// eight bits has the byte.
pub proof fn law_two_pixels_make_the_byte(byte: u8, col: int)
    ensures
        byte == 16 * colour_number(byte as int, 4, 2 * col) + colour_number(
            byte as int,
            4,
            2 * col + 1,
        ),
        0 <= colour_number(byte as int, 4, col) < 16,
        colour_number(byte as int, 8, col) == byte,
{
}

/// The pixels begin behind the header of 40 bytes and the table of four bytes for each colour;
/// each row begins one row's bytes behind the one before, and a byte holds eight, two or one of
/// the pixels.
pub proof fn law_pixels_follow_the_table(width: int, bits: int, colours: int, row: int, col: int)
    requires
        col >= 0,
    ensures
        pixel_at(width, bits, colours, 0, 0) == 40 + 4 * colours,
        pixel_at(width, bits, colours, row + 1, col) == pixel_at(width, bits, colours, row, col)
            + row_bytes(width, bits),
        pixel_at(width, 8, colours, row, col + 1) == pixel_at(width, 8, colours, row, col) + 1,
        pixel_at(width, 4, colours, row, col + 2) == pixel_at(width, 4, colours, row, col) + 1,
        pixel_at(width, 1, colours, row, col + 8) == pixel_at(width, 1, colours, row, col) + 1,
        pixel_at(width, 4, colours, row, 2 * col) == pixel_at(width, 4, colours, row, 2 * col + 1),
{
    let r = row_bytes(width, bits);
    assert((row + 1) * r == row * r + r) by (nonlinear_arith);
    assert(0 * r == 0);
    assert(0 * bits == 0);
}

/// A frame is left out exactly where its bitmap has a header of 40 bytes, a size that can be drawn,
/// one, four or eight bits to the pixel, a colour table that is shorter than the bits allow, and
/// a pixel in the data whose colour the table lacks.
pub proof fn law_short_tables_are_found(data: Seq<u8>, row: int, col: int)
    ensures
        has_short_table(data) ==> data.len() >= 40 && long_at(data, 0) == 40 && long_at(data, 4)
            >= 1 && long_at(data, 8) >= 2 && (short_at(data, 14) == 1 && long_at(data, 32) == 1
            || short_at(data, 14) == 4 && 1 <= long_at(data, 32) <= 15 || short_at(data, 14) == 8
            && 1 <= long_at(data, 32) <= 255),
        data.len() >= 40 && long_at(data, 0) == 40 && 1 <= long_at(data, 4) <= 0x7fff_ffff
            && long_at(data, 8) % 2 == 0 && 2 <= long_at(data, 8) <= 0x7fff_ffff && long_at(data, 4)
            * (long_at(data, 8) / 2) <= 0x400_0000 && (short_at(data, 14) == 1 && long_at(data, 32)
            == 1 || short_at(data, 14) == 4 && 1 <= long_at(data, 32) <= 15 || short_at(data, 14)
            == 8 && 1 <= long_at(data, 32) <= 255) ==> has_short_table(data),
        ({
            let at = pixel_at(long_at(data, 4), short_at(data, 14), long_at(data, 32), row, col);
            lacks_colour(data, row, col) <==> at < data.len() && colour_number(
                data[at] as int,
                short_at(data, 14),
                col,
            ) >= long_at(data, 32)
        }),
{
}

/// One pixel without a colour is enough, and a frame whose every pixel has one is not left out.
pub proof fn law_one_colourless_pixel_is_enough(bytes: Seq<u8>, index: int, row: int, col: int)
    ensures
        ({
            let data = frame_data(bytes, index);
            &&& frame_in_file(bytes, index) && has_short_table(data) && 0 <= row < long_at(data, 8)
                / 2 && 0 <= col < long_at(data, 4) && lacks_colour(data, row, col)
                ==> outruns_its_colours(bytes, index)
            &&& (forall|r: int, c: int|
                0 <= r < long_at(data, 8) / 2 && 0 <= c < long_at(data, 4) ==> !#[trigger]
                    lacks_colour(data, r, c)) ==> !outruns_its_colours(bytes, index)
            &&& !frame_in_file(bytes, index) || !has_short_table(data) ==> !outruns_its_colours(
                bytes,
                index,
            )
        }),
{
}

} // verus!

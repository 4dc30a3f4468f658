use vstd::prelude::*;
use vstd::string::{StrSliceExecFns, StringExecFns};

verus! {

/// Width of every rendered output frame.
pub const OUTPUT_WIDTH: u32 = 1920;

/// Height of every rendered output frame.
pub const OUTPUT_HEIGHT: u32 = 1080;

/// `name` appended to the directory `base`, with one separator between
/// them unless `base` is empty or already ends in one.
pub open spec fn joined(base: Seq<char>, name: Seq<char>) -> Seq<char> {
    if base.len() == 0 || base.last() == '/' {
        base + name
    } else {
        base + seq!['/'] + name
    }
}

/// The file name of the bundle of the project `id`.
pub open spec fn bundle_name(id: Seq<char>) -> Seq<char> {
    id + seq!['.', 'c', 'a', 'p']
}

/// Appends the file or directory `name` to the directory `base`.
pub fn join_path(base: &str, name: &str) -> (r: String)
    ensures
        r@ == joined(base@, name@),
{
    let mut r = String::from_str(base);
    let n = base.unicode_len();
    if n > 0 && base.get_char(n - 1) != '/' {
        let sep = "/";
        proof {
            reveal_strlit("/");
        }
        r.append(sep);
    }
    r.append(name);
    r
}

/// The path of the bundle of the project `video_id` under `projects_path`:
/// `<projects_path>/<video_id>.cap`.
pub fn project_path(projects_path: &str, video_id: &str) -> (r: String)
    ensures
        r@ == joined(projects_path@, bundle_name(video_id@)),
{
    let mut name = String::from_str(video_id);
    let ext = ".cap";
    proof {
        reveal_strlit(".cap");
    }
    name.append(ext);
    join_path(projects_path, name.as_str())
}

/// Width and height of a video track or frame, in pixels.
#[derive(Clone, Copy, Debug, PartialEq, Eq, Structural)]
pub struct Size {
    pub width: u32,
    pub height: u32,
}

/// The geometry a session renders with.
#[derive(Clone, Copy, Debug, PartialEq, Eq, Structural)]
pub struct RenderOptions {
    pub screen_size: Size,
    pub camera_size: Option<Size>,
    pub output_size: Size,
}

/// The render geometry for a recording whose screen track is
/// `screen_size` and whose camera track, if any, is `camera_size`; the
/// output is always full HD.
pub fn render_options(screen_size: Size, camera_size: Option<Size>) -> (r: RenderOptions)
    ensures
        r.screen_size == screen_size,
        r.camera_size == camera_size,
        r.output_size == (Size { width: OUTPUT_WIDTH, height: OUTPUT_HEIGHT }),
{
    RenderOptions { screen_size, camera_size, output_size: Size { width: OUTPUT_WIDTH, height: OUTPUT_HEIGHT } }
}

/// The little-endian 64-bit word stored in `b` at `i .. i + 8`.
pub open spec fn le_word(b: Seq<u8>, i: int) -> int {
    b[i] + b[i + 1] * 0x100 + b[i + 2] * 0x1_0000 + b[i + 3] * 0x100_0000 + b[i + 4] * 0x1_0000_0000
        + b[i + 5] * 0x100_0000_0000 + b[i + 6] * 0x1_0000_0000_0000 + b[i + 7]
        * 0x100_0000_0000_0000
}

/// Splits raw little-endian 64-bit PCM into samples, each as the bit
/// pattern of its float. A trailing partial sample is dropped.
pub fn decode_sample_bits(bytes: &Vec<u8>) -> (r: Vec<u64>)
    ensures
        r@.len() == bytes@.len() / 8,
        forall|k: int| 0 <= k < r@.len() ==> r@[k] as int == le_word(bytes@, 8 * k),
{
    let total: usize = bytes.len();
    let n: usize = total / 8;
    let mut r: Vec<u64> = Vec::new();
    let mut k: usize = 0;
    let mut i: usize = 0;
    while k < n
        invariant
            total == bytes@.len(),
            n == bytes@.len() / 8,
            k <= n,
            i == 8 * k,
            r@.len() == k,
            forall|j: int| 0 <= j < k ==> r@[j] as int == le_word(bytes@, 8 * j),
        decreases n - k,
    {
        assert(8 * k + 8 <= bytes@.len()) by (nonlinear_arith)
            requires
                k < n,
                n == bytes@.len() / 8,
        ;
        let w: u64 = bytes[i] as u64 + bytes[i + 1] as u64 * 0x100 + bytes[i + 2] as u64 * 0x1_0000
            + bytes[i + 3] as u64 * 0x100_0000 + bytes[i + 4] as u64 * 0x1_0000_0000 + bytes[i + 5]
            as u64 * 0x100_0000_0000 + bytes[i + 6] as u64 * 0x1_0000_0000_0000 + bytes[i + 7]
            as u64 * 0x100_0000_0000_0000;
        r.push(w);
        k = k + 1;
        i = i + 8;
    }
    r
}

} // verus!

//! Metadata of the static assets a device serves: the URI name of a file, and the
//! cache, encoding and content type headers that its file name implies.
use std::io::Write;
use vstd::prelude::*;
use vstd::string::*;

use crate::components::layout::{decimal, push_u32, push_usize};
use crate::text::{eq_ignore_ascii_case, eq_ignore_ascii_case_exec};

verus! {

/// The most assets a device serves.
pub const MAX_ASSETS: usize = 10;

/// The position of the last `.` in `s`, or -1 when there is none.
pub open spec fn last_dot(s: Seq<char>) -> int
    decreases s.len(),
{
    if s.len() == 0 {
        -1
    } else if s.last() == '.' {
        s.len() - 1
    } else {
        last_dot(s.drop_last())
    }
}

/// What follows the last `.` of `s`, or all of `s` when it has none.
pub open spec fn last_segment(s: Seq<char>) -> Seq<char> {
    s.subrange(last_dot(s) + 1, s.len() as int)
}

/// The file name ends in a `gz` segment, in any case.
pub open spec fn is_gzipped(name: Seq<char>) -> bool {
    eq_ignore_ascii_case(last_segment(name), "gz"@)
}

/// The name without the `.gz` of a compressed file.
pub open spec fn uncompressed_name(name: Seq<char>) -> Seq<char> {
    if is_gzipped(name) {
        name.subrange(0, name.len() - 3)
    } else {
        name
    }
}

/// The segment that names the type of the file: the last one, or for a compressed
/// file the one before `.gz`.
pub open spec fn type_suffix(name: Seq<char>) -> Seq<char> {
    if is_gzipped(name) {
        last_segment(name.subrange(0, last_dot(name)))
    } else {
        last_segment(name)
    }
}

pub open spec fn is_index(name: Seq<char>) -> bool {
    eq_ignore_ascii_case(uncompressed_name(name), "index.html"@)
}

/// The content type a type segment implies, if it is a known one.
pub open spec fn content_type_of(suffix: Seq<char>) -> Option<Seq<char>> {
    if eq_ignore_ascii_case(suffix, "html"@) {
        Some("text/html"@)
    } else if eq_ignore_ascii_case(suffix, "css"@) {
        Some("text/css"@)
    } else if eq_ignore_ascii_case(suffix, "js"@) {
        Some("text/javascript"@)
    } else if eq_ignore_ascii_case(suffix, "wasm"@) {
        Some("application/wasm"@)
    } else {
        None
    }
}

pub open spec fn opt_str_view(o: Option<&str>) -> Option<Seq<char>> {
    match o {
        Some(s) => Some(s@),
        None => None,
    }
}

/// The name under which an asset is served and the headers it is served with.
#[derive(Debug, Clone)]
pub struct AssetMetadata<'a> {
    pub name: &'a str,
    pub cache_control: Option<&'a str>,
    pub content_encoding: Option<&'a str>,
    pub content_type: Option<&'a str>,
}

fn find_last_dot(s: &str, len: usize) -> (r: Option<usize>)
    requires
        len == s@.len(),
    ensures
        r matches Some(i) ==> last_dot(s@) == i && i < len && s@[i as int] == '.',
        r is None ==> last_dot(s@) == -1,
{
    let mut i = len;
    assert(s@.subrange(0, len as int) =~= s@);
    while i > 0
        invariant
            len == s@.len(),
            i <= len,
            last_dot(s@) == last_dot(s@.subrange(0, i as int)),
        decreases i,
    {
        let ghost p = s@.subrange(0, i as int);
        assert(p.drop_last() =~= s@.subrange(0, i - 1));
        if s.get_char(i - 1) == '.' {
            return Some(i - 1);
        }
        i = i - 1;
    }
    assert(s@.subrange(0, 0) =~= Seq::<char>::empty());
    None
}

impl<'a> AssetMetadata<'a> {
    /// The metadata of an asset, from its file name. A compressed file (`.gz`) is served
    /// under its name without `.gz` and with gzip encoding; `index.html` is served as the
    /// root, uncached; other files are cached for a year; the type segment gives the
    /// content type of HTML, CSS, JavaScript and WebAssembly files.
    pub fn derive(name: &'a str) -> (r: AssetMetadata<'a>)
        requires
            !(is_gzipped(name@) && last_dot(name@) < 0),
        ensures
            r.name@ == (if is_index(name@) {
                Seq::empty()
            } else {
                uncompressed_name(name@)
            }),
            opt_str_view(r.cache_control) == Some(
                if is_index(name@) {
                    "no-store"@
                } else {
                    "public, max-age=31536000"@
                },
            ),
            opt_str_view(r.content_encoding) == (if is_gzipped(name@) {
                Some("gzip"@)
            } else {
                None
            }),
            opt_str_view(r.content_type) == content_type_of(type_suffix(name@)),
    {
        let len = name.unicode_len();
        let dot = find_last_dot(name, len);
        let seg_start = match dot {
            Some(i) => i + 1,
            None => 0,
        };
        let suffix = name.substring_char(seg_start, len);
        let gz = eq_ignore_ascii_case_exec(suffix, "gz");
        proof {
            reveal_strlit("gz");
            assert(suffix@ == last_segment(name@));
        }
        let (base, content_encoding) = if gz {
            (name.substring_char(0, len - 3), Some("gzip"))
        } else {
            (name, None)
        };
        let (base, cache_control) = if eq_ignore_ascii_case_exec(base, "index.html") {
            ("", "no-store")
        } else {
            (base, "public, max-age=31536000")
        };
        let type_suffix = if gz {
            let prefix_len = seg_start - 1;
            let prefix = name.substring_char(0, prefix_len);
            let inner = find_last_dot(prefix, prefix_len);
            let start = match inner {
                Some(i) => i + 1,
                None => 0,
            };
            proof {
                assert(prefix@ == name@.subrange(0, last_dot(name@)));
                assert(name@.subrange(start as int, prefix_len as int) =~= prefix@.subrange(
                    start as int,
                    prefix_len as int,
                ));
            }
            name.substring_char(start, prefix_len)
        } else {
            suffix
        };
        proof {
            reveal_strlit("");
        }
        let content_type = if eq_ignore_ascii_case_exec(type_suffix, "html") {
            Some("text/html")
        } else if eq_ignore_ascii_case_exec(type_suffix, "css") {
            Some("text/css")
        } else if eq_ignore_ascii_case_exec(type_suffix, "js") {
            Some("text/javascript")
        } else if eq_ignore_ascii_case_exec(type_suffix, "wasm") {
            Some("application/wasm")
        } else {
            None
        };
        AssetMetadata {
            name: base,
            cache_control: Some(cache_control),
            content_encoding,
            content_type,
        }
    }
}

impl<'a> AssetMetadata<'a> {
    /// The URI an asset is served under: its name after a `/`.
    pub fn uri(&self) -> (r: String)
        ensures
            r@ == seq!['/'] + self.name@,
    {
        proof { reveal_strlit("/"); }
        let mut r = String::from_str("/");
        r.append(self.name);
        r
    }

    /// The headers an asset is served with: cache control, content encoding and
    /// content type, each where the metadata has one, in that order.
    pub fn headers(&self) -> (r: Vec<(&'static str, &'a str)>)
        ensures
            r@.map_values(|h: (&'static str, &'a str)| (h.0@, h.1@)) == header_list(*self),
    {
        let mut r: Vec<(&'static str, &'a str)> = Vec::new();
        if let Some(c) = self.cache_control {
            r.push(("Cache-Control", c));
        }
        if let Some(c) = self.content_encoding {
            r.push(("Content-Encoding", c));
        }
        if let Some(c) = self.content_type {
            r.push(("Content-Type", c));
        }
        assert(r@.map_values(|h: (&'static str, &'a str)| (h.0@, h.1@)) =~= header_list(*self));
        r
    }
}

pub open spec fn header_item(name: Seq<char>, value: Option<&str>) -> Seq<(Seq<char>, Seq<char>)> {
    match value {
        Some(v) => seq![(name, v@)],
        None => Seq::empty(),
    }
}

pub open spec fn header_list(m: AssetMetadata) -> Seq<(Seq<char>, Seq<char>)> {
    header_item("Cache-Control"@, m.cache_control) + header_item(
        "Content-Encoding"@,
        m.content_encoding,
    ) + header_item("Content-Type"@, m.content_type)
}

/// Whether an asset is served: it has a name and data.
pub fn is_served(name: &str, data: &[u8]) -> (r: bool)
    ensures
        r == (name@.len() > 0 && data@.len() > 0),
{
    !name.is_empty() && data.len() != 0
}

/// Why the assets of a front end cannot be prepared.
#[derive(Clone, Copy, Debug, PartialEq, Eq, Structural)]
pub enum AssetsError {
    /// More files than a device serves.
    TooManyAssets,
}

/// The number of empty slots that follow `count` prepared assets, up to the most a
/// device serves; more assets than that are refused.
pub fn empty_slots(count: usize) -> (r: Result<usize, AssetsError>)
    ensures
        count > MAX_ASSETS ==> r matches Err(AssetsError::TooManyAssets),
        count <= MAX_ASSETS ==> (r matches Ok(n) && n == MAX_ASSETS - count),
{
    if count > MAX_ASSETS {
        Err(AssetsError::TooManyAssets)
    } else {
        Ok(MAX_ASSETS - count)
    }
}

/// What `flate2` writes for `data` with a `GzEncoder` at `Compression::best()`
/// and the default header.
pub uninterp spec fn gzip_best_bytes(data: Seq<u8>) -> Seq<u8>;

/// Compresses `data` with `flate2::write::GzEncoder::new(Vec::new(),
/// Compression::best())`, `write_all` and `finish`. The result is named
/// `gzip_best_bytes`; the source shows that the default header comes first: the gzip
/// magic bytes, deflate, no flags, no time stamp, the flag for the best level and
/// the unknown system. The deflate stream itself is left unstated. Writing into a
/// `Vec` does not fail, and the deflate backend fails only on misuse that this call
/// does not make, so a result always comes back.
#[verifier::external_body]
fn gzip_best(data: &[u8]) -> (r: Option<Vec<u8>>)
    ensures
        r is Some,
        r matches Some(v) ==> v@ == gzip_best_bytes(data@) && gzip_header(v@),
{
    let mut encoder = flate2::write::GzEncoder::new(Vec::new(), flate2::Compression::best());
    match encoder.write_all(data) {
        Ok(()) => {},
        Err(_) => return None,
    }
    match encoder.finish() {
        Ok(v) => Some(v),
        Err(_) => None,
    }
}

/// The header of a gzip stream as `flate2` writes it by default at the best level.
pub open spec fn gzip_header(v: Seq<u8>) -> bool {
    &&& v.len() >= 10
    &&& v[0] == 0x1f && v[1] == 0x8b && v[2] == 8 && v[3] == 0
    &&& v[4] == 0 && v[5] == 0 && v[6] == 0 && v[7] == 0
    &&& v[8] == 2 && v[9] == 255
}

/// The compressed content of an asset file: its data in gzip at the best level,
/// which always comes back.
pub fn compress_asset(data: &[u8]) -> (r: Option<Vec<u8>>)
    ensures
        r is Some,
        r matches Some(v) ==> v@ == gzip_best_bytes(data@) && gzip_header(v@),
{
    gzip_best(data)
}

/// The name of a compressed asset file: the name with `.gz` added.
pub fn compressed_file_name(name: &str) -> (r: String)
    ensures
        r@ == name@ + ".gz"@,
{
    proof { reveal_strlit(".gz"); }
    let mut r = name.to_string();
    r.append(".gz");
    r
}

/// The message that refuses more assets than a device serves.
pub fn too_many_assets_message() -> (r: String)
    ensures
        r@ == "Maximum number of supported assets is "@ + decimal(MAX_ASSETS as nat),
{
    let mut r = String::from_str("Maximum number of supported assets is ");
    push_u32(&mut r, 10);
    r
}

/// The asset files of a front end, filled up with the empty file to the number a
/// device serves; more files than that are refused.
pub fn pad_assets(files: Vec<String>, empty: &String) -> (r: Result<Vec<String>, AssetsError>)
    ensures
        files@.len() > MAX_ASSETS ==> r matches Err(AssetsError::TooManyAssets),
        files@.len() <= MAX_ASSETS ==> (r matches Ok(v) && v@.len() == MAX_ASSETS
            && v@.subrange(0, files@.len() as int) == files@
            && forall|i: int| files@.len() <= i < MAX_ASSETS ==> (#[trigger] v@[i])@ == empty@),
{
    let count = files.len();
    match empty_slots(count) {
        Err(e) => Err(e),
        Ok(n) => {
            let mut v = files;
            let mut k: usize = 0;
            while k < n
                invariant
                    n == MAX_ASSETS - count,
                    k <= n,
                    v@.len() == count + k,
                    v@.subrange(0, count as int) == files@,
                    forall|i: int| count <= i < count + k ==> (#[trigger] v@[i])@ == empty@,
                decreases n - k,
            {
                let ghost before = v@;
                v.push(empty.clone());
                assert(v@.subrange(0, count as int) =~= before.subrange(0, count as int));
                k = k + 1;
            }
            Ok(v)
        },
    }
}

/// The two lines by which a build script hands an asset to the build: its file
/// name, and the path of its data, under the module's name and the asset's index.
pub fn asset_env_lines(module: &str, index: usize, file_name: &str, path: &str) -> (r: (String, String))
    ensures
        r.0@ == "cargo:rustc-env="@ + module@ + "_EDGE_FRAME_ASSET_NAME_"@ + decimal(index as nat) + "="@ + file_name@,
        r.1@ == "cargo:rustc-env="@ + module@ + "_EDGE_FRAME_ASSET_DATA_"@ + decimal(index as nat) + "="@ + path@,
{
    proof {
        reveal_strlit("cargo:rustc-env=");
        reveal_strlit("_EDGE_FRAME_ASSET_NAME_");
        reveal_strlit("_EDGE_FRAME_ASSET_DATA_");
        reveal_strlit("=");
    }
    let mut name_line = String::from_str("cargo:rustc-env=");
    name_line.append(module);
    name_line.append("_EDGE_FRAME_ASSET_NAME_");
    push_usize(&mut name_line, index);
    name_line.append("=");
    name_line.append(file_name);
    let mut data_line = String::from_str("cargo:rustc-env=");
    data_line.append(module);
    data_line.append("_EDGE_FRAME_ASSET_DATA_");
    push_usize(&mut data_line, index);
    data_line.append("=");
    data_line.append(path);
    (name_line, data_line)
}

} // verus!

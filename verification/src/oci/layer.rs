//! Extraction of image layers: the file mode recorded for each entry of a
//! layer's archive, the permissions it is given on disk, and the hard links kept
//! for a second pass.

use vstd::prelude::*;
use vstd::string::StringExecFns;

use crate::text::{decimal_string, decimal_text, str_equal};

verus! {

//--------------------------------------------------------------------------------------------------
// File modes
//--------------------------------------------------------------------------------------------------

/// The file-type bits of a regular file.
pub const S_IFREG: u32 = 0o100000;
/// The file-type bits of a directory.
pub const S_IFDIR: u32 = 0o040000;
/// The file-type bits of a symbolic link.
pub const S_IFLNK: u32 = 0o120000;
/// The file-type bits of a block device.
pub const S_IFBLK: u32 = 0o060000;
/// The file-type bits of a character device.
pub const S_IFCHR: u32 = 0o020000;
/// The file-type bits of a FIFO.
pub const S_IFIFO: u32 = 0o010000;

/// The kind of an entry of a layer's archive.
#[derive(Clone, Copy, Debug, PartialEq, Eq, Structural)]
pub enum EntryKind {
    /// A regular file
    File,
    /// A directory
    Directory,
    /// A symbolic link
    Symlink,
    /// A hard link
    HardLink,
    /// A block device
    BlockSpecial,
    /// A character device
    CharacterSpecial,
    /// A FIFO
    Fifo,
    /// Any other kind
    Other,
}

/// The file-type bits of an entry kind (none for links and unknown kinds).
pub open spec fn type_bits(kind: EntryKind) -> u32 {
    match kind {
        EntryKind::File => 0o100000,
        EntryKind::Directory => 0o040000,
        EntryKind::Symlink => 0o120000,
        EntryKind::BlockSpecial => 0o060000,
        EntryKind::CharacterSpecial => 0o020000,
        EntryKind::Fifo => 0o010000,
        EntryKind::HardLink => 0,
        EntryKind::Other => 0,
    }
}

/// The full mode of an entry: its file-type bits together with its permission bits.
pub fn get_full_mode(kind: EntryKind, permission_bits: u32) -> (r: u32)
    ensures
        r == type_bits(kind) | permission_bits,
{
    let file_type_bits: u32 = match kind {
        EntryKind::File => S_IFREG,
        EntryKind::Directory => S_IFDIR,
        EntryKind::Symlink => S_IFLNK,
        EntryKind::BlockSpecial => S_IFBLK,
        EntryKind::CharacterSpecial => S_IFCHR,
        EntryKind::Fifo => S_IFIFO,
        _ => 0,
    };
    file_type_bits | permission_bits
}

/// For permission bits below `0o10000`, the full mode keeps them in its low
/// bits, and the type bits in its high ones.
pub proof fn lemma_full_mode_parts(kind: EntryKind, permission_bits: u32)
    requires
        permission_bits < 0o10000,
    ensures
        (type_bits(kind) | permission_bits) & 0o7777 == permission_bits,
        (type_bits(kind) | permission_bits) & 0o170000 == type_bits(kind),
{
    let t = type_bits(kind);
    assert(t & 0o7777 == 0 && t & 0o170000 == t) by {
        match kind {
            EntryKind::File => {
                assert(0o100000u32 & 0o7777 == 0 && 0o100000u32 & 0o170000 == 0o100000) by (bit_vector);
            },
            EntryKind::Directory => {
                assert(0o040000u32 & 0o7777 == 0 && 0o040000u32 & 0o170000 == 0o040000) by (bit_vector);
            },
            EntryKind::Symlink => {
                assert(0o120000u32 & 0o7777 == 0 && 0o120000u32 & 0o170000 == 0o120000) by (bit_vector);
            },
            EntryKind::BlockSpecial => {
                assert(0o060000u32 & 0o7777 == 0 && 0o060000u32 & 0o170000 == 0o060000) by (bit_vector);
            },
            EntryKind::CharacterSpecial => {
                assert(0o020000u32 & 0o7777 == 0 && 0o020000u32 & 0o170000 == 0o020000) by (bit_vector);
            },
            EntryKind::Fifo => {
                assert(0o010000u32 & 0o7777 == 0 && 0o010000u32 & 0o170000 == 0o010000) by (bit_vector);
            },
            _ => {
                assert(0u32 & 0o7777 == 0 && 0u32 & 0o170000 == 0) by (bit_vector);
            },
        }
    }
    assert((t | permission_bits) & 0o7777 == permission_bits && (t | permission_bits) & 0o170000 == t)
        by (bit_vector)
        requires
            permission_bits < 0o10000,
            t & 0o7777 == 0,
            t & 0o170000 == t,
    ;
}

/// The permission bits an extracted entry is given: its current ones, with at
/// least read, write and search for the owner on a directory, and read and write
/// on anything else.
pub open spec fn desired_permissions(current_mode: u32, is_dir: bool) -> u32 {
    (current_mode & 0o7777) | (if is_dir {
        0o700u32
    } else {
        0o600u32
    })
}

/// The permission bits an extracted entry is given, and whether they differ
/// from its current ones (in which case they are set).
pub fn desired_permission_bits(current_mode: u32, is_dir: bool) -> (r: (u32, bool))
    ensures
        r.0 == desired_permissions(current_mode, is_dir),
        r.1 == (r.0 != current_mode & 0o7777),
{
    let current = current_mode & 0o7777;
    let desired = if is_dir {
        current | 0o700
    } else {
        current | 0o600
    };
    (desired, current != desired)
}

/// Giving an entry its desired permissions twice changes nothing the second time.
pub proof fn lemma_desired_permissions_stable(current_mode: u32, is_dir: bool)
    ensures
        desired_permissions(desired_permissions(current_mode, is_dir), is_dir) == desired_permissions(
            current_mode,
            is_dir,
        ),
        desired_permissions(current_mode, is_dir) & 0o7777 == desired_permissions(current_mode, is_dir),
{
    let m = current_mode;
    assert(((((m & 0o7777) | 0o700) & 0o7777) | 0o700) == ((m & 0o7777) | 0o700)) by (bit_vector);
    assert(((((m & 0o7777) | 0o600) & 0o7777) | 0o600) == ((m & 0o7777) | 0o600)) by (bit_vector);
    assert((((m & 0o7777) | 0o700) & 0o7777) == ((m & 0o7777) | 0o700)) by (bit_vector);
    assert((((m & 0o7777) | 0o600) & 0o7777) == ((m & 0o7777) | 0o600)) by (bit_vector);
}

//--------------------------------------------------------------------------------------------------
// The recorded owner and mode
//--------------------------------------------------------------------------------------------------

/// The name of the extended attribute that records an entry's original owner and mode.
pub const STAT_XATTR_NAME: &'static str = "user.containers.override_stat";

/// The octal digits of a number, most significant first (`0` for zero).
pub open spec fn octal_text(n: nat) -> Seq<char>
    decreases n,
{
    if n < 8 {
        seq![('0' as u8 + n as u8) as char]
    } else {
        octal_text(n / 8).push(('0' as u8 + (n % 8) as u8) as char)
    }
}

/// The octal digits of a number.
pub fn octal_string(n: u64) -> (r: String)
    ensures
        r@ == octal_text(n as nat),
    decreases n,
{
    let digit = octal_digit((n % 8) as u8);
    let s = if n < 8 {
        String::new()
    } else {
        octal_string(n / 8)
    };
    let ghost before = s@;
    let r = s.concat(digit);
    proof {
        if n < 8 {
            assert(r@ =~= octal_text(n as nat));
        } else {
            assert(r@ =~= before.push(('0' as u8 + (n % 8) as u8) as char));
        }
    }
    r
}

/// The text of one octal digit.
fn octal_digit(d: u8) -> (r: &'static str)
    requires
        d < 8,
    ensures
        r@ == seq![('0' as u8 + d) as char],
{
    proof {
        reveal_strlit("0");
        reveal_strlit("1");
        reveal_strlit("2");
        reveal_strlit("3");
        reveal_strlit("4");
        reveal_strlit("5");
        reveal_strlit("6");
        reveal_strlit("7");
    }
    let r = if d == 0 {
        "0"
    } else if d == 1 {
        "1"
    } else if d == 2 {
        "2"
    } else if d == 3 {
        "3"
    } else if d == 4 {
        "4"
    } else if d == 5 {
        "5"
    } else if d == 6 {
        "6"
    } else {
        "7"
    };
    assert(r@ =~= seq![('0' as u8 + d) as char]);
    r
}

/// The value of the attribute that records an entry's original owner and mode:
/// user id, group id, and the mode in octal with a leading zero.
pub open spec fn stat_xattr_text(uid: u64, gid: u64, mode: u32) -> Seq<char> {
    decimal_text(uid as nat) + ":"@ + decimal_text(gid as nat) + ":0"@ + octal_text(mode as nat)
}

/// The value of the attribute that records an entry's original owner and mode.
pub fn stat_xattr_value(uid: u64, gid: u64, mode: u32) -> (r: String)
    ensures
        r@ == stat_xattr_text(uid, gid, mode),
{
    decimal_string(uid).concat(":").concat(decimal_string(gid).as_str()).concat(":0").concat(
        octal_string(mode as u64).as_str(),
    )
}

//--------------------------------------------------------------------------------------------------
// Hard links
//--------------------------------------------------------------------------------------------------

/// A hard link of a layer, created once all other entries are extracted.
pub struct HardLink {
    /// Where the link is created
    pub link_path: String,
    /// The file it links to
    pub target_path: String,
    /// The original owner's user id
    pub uid: u64,
    /// The original owner's group id
    pub gid: u64,
    /// The original full mode
    pub mode: u32,
}

/// The hard links of a layer, in the order they were met.
pub struct HardLinkVec {
    /// The links
    pub hard_links: Vec<HardLink>,
}

impl HardLinkVec {
    /// No links yet.
    pub fn new() -> (r: Self)
        ensures
            r.hard_links@.len() == 0,
    {
        HardLinkVec { hard_links: Vec::new() }
    }

    /// The links of a list, in its order.
    pub fn from(value: Vec<HardLink>) -> (r: Self)
        ensures
            r.hard_links == value,
    {
        HardLinkVec { hard_links: value }
    }

    /// Add a link after those met before it.
    pub fn push(&mut self, link: HardLink)
        ensures
            final(self).hard_links@ == old(self).hard_links@.push(link),
    {
        self.hard_links.push(link);
    }
}


//--------------------------------------------------------------------------------------------------
// Layers of an image
//--------------------------------------------------------------------------------------------------

/// Result of downloading an image layer.
pub enum ImageLayerBlob {
    /// The layer (by digest) was downloaded to the path given.
    Downloaded(String, String),
    /// The layer (by digest) already exists in the global layer directory.
    ExistsInGlobalCache(String),
}

impl ImageLayerBlob {
    /// The path the layer was downloaded to; `None` where it was already in the
    /// global layer directory.
    pub fn download_path(&self) -> (r: Option<String>)
        ensures
            match self {
                ImageLayerBlob::Downloaded(_, path) => r == Some(*path),
                ImageLayerBlob::ExistsInGlobalCache(_) => r is None,
            },
    {
        match self {
            ImageLayerBlob::Downloaded(_, path) => Some(path.clone()),
            ImageLayerBlob::ExistsInGlobalCache(_) => None,
        }
    }
}

/// The last position of the digest among the layers, if it occurs.
pub open spec fn last_position(layers: Seq<String>, digest: Seq<char>, i: int) -> bool {
    0 <= i < layers.len() && layers[i]@ == digest && forall|j: int|
        i < j < layers.len() ==> (#[trigger] layers[j])@ != digest
}

/// The layers a layer is extracted on top of: those after its last position
/// in the image's list, or the whole list where it does not occur.
pub open spec fn parents_of(layers: Seq<String>, digest: Seq<char>) -> Seq<String> {
    if exists|i: int| last_position(layers, digest, i) {
        layers.subrange((choose|i: int| last_position(layers, digest, i)) + 1, layers.len() as int)
    } else {
        layers
    }
}

proof fn lemma_last_position_unique(layers: Seq<String>, digest: Seq<char>, i: int, k: int)
    requires
        last_position(layers, digest, i),
        last_position(layers, digest, k),
    ensures
        i == k,
{
    if i < k {
        assert(layers[k]@ != digest);
    } else if k < i {
        assert(layers[i]@ != digest);
    }
}

/// The parent layers of a layer, by digest, among an image's layers in order.
pub fn layer_parents(layers: &Vec<String>, digest: &str) -> (r: Vec<String>)
    ensures
        r@ == parents_of(layers@, digest@),
{
    let n = layers.len();
    let mut k: usize = n;
    while k > 0 && !str_equal(layers[k - 1].as_str(), digest)
        invariant
            k <= n,
            n == layers@.len(),
            forall|j: int| k <= j < n ==> (#[trigger] layers@[j])@ != digest@,
        decreases k,
    {
        k = k - 1;
    }
    let start: usize = k;
    proof {
        if k > 0 {
            assert(last_position(layers@, digest@, k - 1));
            let c = choose|i: int| last_position(layers@, digest@, i);
            lemma_last_position_unique(layers@, digest@, c, k - 1);
        } else {
            assert(!exists|i: int| last_position(layers@, digest@, i));
        }
    }
    let mut out: Vec<String> = Vec::new();
    let mut i: usize = start;
    while i < n
        invariant
            start <= i <= n,
            n == layers@.len(),
            out@ == layers@.subrange(start as int, i as int),
        decreases n - i,
    {
        out.push(layers[i].clone());
        assert(out@ =~= layers@.subrange(start as int, i + 1));
        i = i + 1;
    }
    out
}

/// Whether every layer of an image is in the cache: the image is recorded,
/// with at least one layer, every layer is extracted, and the image's config
/// lists as many layers (`None` where it lists none).
pub fn image_fully_extracted(
    image_recorded: bool,
    layer_count: usize,
    all_layers_extracted: bool,
    config_layer_count: Option<usize>,
) -> (r: bool)
    ensures
        r == (image_recorded && layer_count > 0 && all_layers_extracted && config_layer_count
            == Some(layer_count)),
{
    if !image_recorded || layer_count == 0 || !all_layers_extracted {
        return false;
    }
    match config_layer_count {
        Some(c) => c == layer_count,
        None => false,
    }
}

} // verus!

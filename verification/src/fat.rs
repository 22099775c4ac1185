//! Trusted view of a FAT volume held in a plain byte buffer.
//!
//! The volume is a collection kept by the `fatfs` crate: a set of
//! directory paths and a map from file paths to file contents, both fully
//! determined by the buffer's bytes. `fat_dirs` and `fat_files` name that
//! interpretation; the wrappers below state how each `fatfs` operation
//! changes it. fatfs resolves names case-insensitively and also through
//! generated 8.3 short names, so one stored entry answers to several
//! paths: the set and the map are closed under that aliasing, holding
//! every path that resolves to the entry. Paths are written from the
//! volume root without a leading slash, with `/` between components. No
//! wrapper ever changes the length of the buffer: every operation goes
//! through a cursor over a fixed-size slice.
use crate::BuildError;
use std::io::Write;
use vstd::prelude::*;

verus! {

/// The directory paths of the volume `disk`: every path `fatfs` resolves
/// to a directory entry of the volume the bytes hold.
pub uninterp spec fn fat_dirs(disk: Seq<u8>) -> Set<Seq<char>>;

/// The file contents of the volume `disk`, by path: every path `fatfs`
/// resolves to a file entry of the volume the bytes hold, mapped to that
/// file's content.
pub uninterp spec fn fat_files(disk: Seq<u8>) -> Map<Seq<char>, Seq<u8>>;

/// Whether the bytes hold a well-formed volume: the boot sector, the
/// allocation table's cluster chains and its free entries are consistent,
/// as fatfs's formatter lays them out and its operations keep them. fatfs
/// itself never checks chains for cycles, so on arbitrary bytes its
/// directory walks need not terminate and its allocator could hand out a
/// cluster in use; the wrappers therefore demand a well-formed volume and
/// return one.
pub uninterp spec fn fat_wf(disk: Seq<u8>) -> bool;

/// Whether fatfs's formatter succeeds on a buffer of `len` bytes; the
/// outcome depends on the length alone (the formatter writes a constant
/// volume id and label and consults neither clock nor environment).
pub uninterp spec fn fat_formattable(len: int) -> bool;

/// Whether the volume geometry fatfs picks for a buffer of `len` bytes
/// has 32-bit allocation-table entries; below the 32-bit minimum it falls
/// back to a narrower table width.
pub uninterp spec fn fat32_geometry(len: int) -> bool;

/// Whether the bytes hold a FAT volume whose allocation-table entries are
/// 32 bits wide.
pub uninterp spec fn fat32_volume(disk: Seq<u8>) -> bool;

/// Whether creating the directory at `path` succeeds on the well-formed
/// volume `disk`: the parent components resolve to directories, the name
/// is acceptable, no file stands in the way, and a cluster is free. All
/// of that is determined by the bytes and the path alone (entry
/// timestamps never decide an outcome), so the outcome has a name.
pub uninterp spec fn dir_fits(disk: Seq<u8>, path: Seq<char>) -> bool;

/// Whether creating, truncating and writing `data` to the file at `path`
/// succeeds on the well-formed volume `disk`; determined by the bytes,
/// the path and the data alone, as for `dir_fits`.
pub uninterp spec fn write_fits(disk: Seq<u8>, path: Seq<char>, data: Seq<u8>) -> bool;

/// A volume with no files at all.
pub open spec fn no_files() -> Map<Seq<char>, Seq<u8>> {
    Map::empty()
}

/// A volume with no directories besides the root.
pub open spec fn no_dirs() -> Set<Seq<char>> {
    Set::empty()
}

/// Case-fold equality of two ASCII characters: equal, or the same letter
/// in the two cases.
pub open spec fn fold_char_eq(a: char, b: char) -> bool {
    ||| a == b
    ||| 'A' <= a <= 'Z' && b as int == a as int + 32
    ||| 'A' <= b <= 'Z' && a as int == b as int + 32
}

/// ASCII case-fold equality of two paths.
pub open spec fn fold_eq(p: Seq<char>, q: Seq<char>) -> bool {
    &&& p.len() == q.len()
    &&& forall|i: int| 0 <= i < p.len() ==> fold_char_eq(p[i], #[trigger] q[i])
}

/// A character a plain path may hold: printable ASCII below `~`, which
/// also excludes the space.
pub open spec fn plain_char(c: char) -> bool {
    '!' <= c <= '}'
}

/// A path in the plain form whose resolution fatfs keeps apart from every
/// other plain path with a different ASCII case-fold: nonempty
/// `/`-separated components of printable ASCII without space or `~`, no
/// component beginning or ending with a dot. A plain name is stored
/// either under its own uppercased 8.3 form (its case-fold) or under a
/// generated short name that carries a `~`, which no plain path matches;
/// so two plain paths that differ under case folding never resolve to one
/// entry. A component-final dot must be excluded because the short-name
/// generator drops it losslessly, storing `x.` under the plain short name
/// `X`.
pub open spec fn plain_path(p: Seq<char>) -> bool {
    &&& 0 < p.len()
    &&& forall|i: int| 0 <= i < p.len() ==> plain_char(#[trigger] p[i])
    &&& p[0] != '/' && p[0] != '.' && p[p.len() - 1] != '/' && p[p.len() - 1] != '.'
    &&& forall|i: int|
        0 < i < p.len() ==> !(p[i - 1] == '/' && ((#[trigger] p[i]) == '/' || p[i] == '.')) && !(
        p[i] == '/' && p[i - 1] == '.')
}

/// Relies on fatfs::format_volume: formats the buffer in place as an
/// empty, well-formed FAT volume (no files, no directories besides the
/// root). A 32-bit table is requested, but fatfs sizes the geometry to
/// the buffer and falls back to a narrower table below the 32-bit
/// minimum; success and the chosen width are functions of the buffer
/// length alone, named `fat_formattable` and `fat32_geometry`.
#[verifier::external_body]
pub(crate) fn fat_format(disk: &mut Vec<u8>) -> (r: Result<(), BuildError>)
    ensures
        r is Ok <==> fat_formattable(old(disk)@.len() as int),
        r is Ok ==> final(disk)@.len() == old(disk)@.len() && fat_wf(final(disk)@) && fat_files(final(disk)@) == no_files() && fat_dirs(final(disk)@) == no_dirs(),
        r is Ok ==> (fat32_volume(final(disk)@) <==> fat32_geometry(old(disk)@.len() as int)),
        r is Err ==> r->Err_0 == BuildError::Capacity && final(disk)@.len() == old(disk)@.len(),
{
    let mut cursor = std::io::Cursor::new(disk.as_mut_slice());
    let options = fatfs::FormatVolumeOptions::new().fat_type(fatfs::FatType::Fat32);
    match fatfs::format_volume(&mut cursor, options) {
        Ok(()) => Ok(()),
        Err(_) => Err(BuildError::Capacity),
    }
}

/// Relies on fatfs::FileSystem::new and fatfs::Dir::create_dir: creates
/// the directory at `path` (opening it if already present), touching no
/// file; succeeds exactly when `dir_fits` says so. Directories never
/// disappear, and on the plain paths that cannot alias `path` (see
/// `plain_path`) the directory set is unchanged. Of the boot sector only
/// the dirty-flag byte is rewritten, so the table width is unchanged.
#[verifier::external_body]
pub(crate) fn fat_create_dir(disk: &mut Vec<u8>, path: &str) -> (r: Result<(), BuildError>)
    requires
        fat_wf(old(disk)@),
    ensures
        r is Ok <==> dir_fits(old(disk)@, path@),
        r is Ok ==> final(disk)@.len() == old(disk)@.len() && fat_wf(final(disk)@) && fat_dirs(final(disk)@).contains(path@) && fat_files(final(disk)@) == fat_files(old(disk)@),
        r is Ok ==> forall|q: Seq<char>| #[trigger] fat_dirs(old(disk)@).contains(q) ==> fat_dirs(final(disk)@).contains(q),
        r is Ok ==> forall|q: Seq<char>| plain_path(path@) && plain_path(q) && !fold_eq(path@, q) && #[trigger] fat_dirs(final(disk)@).contains(q) ==> fat_dirs(old(disk)@).contains(q),
        r is Ok ==> fat32_volume(final(disk)@) == fat32_volume(old(disk)@),
        r is Err ==> final(disk)@.len() == old(disk)@.len() && r->Err_0 != BuildError::Encoding,
{
    let cursor = std::io::Cursor::new(disk.as_mut_slice());
    let fs = match fatfs::FileSystem::new(cursor, fatfs::FsOptions::new()) {
        Ok(fs) => fs,
        Err(_) => return Err(BuildError::Io),
    };
    let r = match fs.root_dir().create_dir(path) {
        Ok(_) => Ok(()),
        Err(e) => Err(map_fat_error(e)),
    };
    r
}

/// Relies on fatfs::Dir::create_file, fatfs::File::truncate and the Write
/// impl of fatfs::File: creates or truncates the file at `path`, then
/// writes exactly `data` as its content, touching no directory; succeeds
/// exactly when `write_fits` says so. Files never disappear; on the plain
/// paths that cannot alias `path` (see `plain_path`) the file map is
/// unchanged, and no such path is added. The parent directory must
/// already exist, or an error is returned. Of the boot sector only the
/// dirty-flag byte is rewritten, so the table width is unchanged.
#[verifier::external_body]
pub(crate) fn fat_write_file(disk: &mut Vec<u8>, path: &str, data: &[u8]) -> (r: Result<
    (),
    BuildError,
>)
    requires
        fat_wf(old(disk)@),
    ensures
        r is Ok <==> write_fits(old(disk)@, path@, data@),
        r is Ok ==> final(disk)@.len() == old(disk)@.len() && fat_wf(final(disk)@) && fat_files(final(disk)@).contains_key(path@) && fat_files(final(disk)@)[path@] == data@ && fat_dirs(final(disk)@) == fat_dirs(old(disk)@),
        r is Ok ==> forall|q: Seq<char>| #[trigger] fat_files(old(disk)@).contains_key(q) ==> fat_files(final(disk)@).contains_key(q),
        r is Ok ==> forall|q: Seq<char>| #[trigger] fat_files(old(disk)@).contains_key(q) && plain_path(path@) && plain_path(q) && !fold_eq(path@, q) ==> fat_files(final(disk)@)[q] == fat_files(old(disk)@)[q],
        r is Ok ==> forall|q: Seq<char>| plain_path(path@) && plain_path(q) && !fold_eq(path@, q) && #[trigger] fat_files(final(disk)@).contains_key(q) ==> fat_files(old(disk)@).contains_key(q),
        r is Ok ==> fat32_volume(final(disk)@) == fat32_volume(old(disk)@),
        r is Err ==> final(disk)@.len() == old(disk)@.len() && r->Err_0 != BuildError::Encoding,
{
    let cursor = std::io::Cursor::new(disk.as_mut_slice());
    let r = fatfs::FileSystem::new(cursor, fatfs::FsOptions::new()).and_then(|fs| {
        let mut file = fs.root_dir().create_file(path)?;
        file.truncate()?;
        file.write_all(data)?;
        file.flush()
    });
    r.map_err(map_fat_error)
}

#[verifier::external_type_specification]
#[verifier::external_body]
pub struct ExIoError(std::io::Error);

/// Relies on std::io::Error: sorts a `fatfs` failure into this library's
/// error kinds. `fatfs` reports exhausted space as a write of zero bytes
/// or an unspecific error, bad or colliding names as already-existing,
/// missing, or invalid entries, and a file/directory kind mismatch as an
/// unspecific error whose text names a directory.
#[verifier::external_body]
fn map_fat_error(e: std::io::Error) -> (r: BuildError)
    ensures
        r != BuildError::Encoding,
{
    match e.kind() {
        std::io::ErrorKind::AlreadyExists => BuildError::NameCollision,
        std::io::ErrorKind::NotFound => BuildError::NameCollision,
        std::io::ErrorKind::InvalidInput => BuildError::NameCollision,
        std::io::ErrorKind::WriteZero => BuildError::Capacity,
        std::io::ErrorKind::UnexpectedEof => BuildError::Capacity,
        std::io::ErrorKind::Other => if format!("{}", e).to_lowercase().contains("directory") { BuildError::NameCollision } else { BuildError::Capacity },
        _ => BuildError::Io,
    }
}

} // verus!

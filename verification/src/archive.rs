//! The files that a node's debugger container sends back: a gzip-compressed
//! tar archive of libvirt's documents and of the `virsh version` output.

use crate::text::{str_eq, trim_whitespace, trim_ws};
use vstd::prelude::*;
use vstd::utf8::{decode_utf8, valid_utf8};

verus! {

#[verifier::external_type_specification]
#[verifier::external_body]
pub struct ExIoError(std::io::Error);

#[verifier::external_type_specification]
#[verifier::external_body]
pub struct ExFromUtf8Error(std::string::FromUtf8Error);

/// One file of an archive: the file name of its path, where that name is
/// valid UTF-8, and its contents.
pub struct ArchiveFile {
    pub name: Option<String>,
    pub contents: Vec<u8>,
}

impl ArchiveFile {
    /// The file as its name and contents.
    pub open spec fn entry(self) -> (Option<Seq<char>>, Seq<u8>) {
        (
            match self.name {
                Some(n) => Some(n@),
                None => None,
            },
            self.contents@,
        )
    }
}

/// The entries of a list of files.
pub open spec fn entries_of(files: Seq<ArchiveFile>) -> Seq<(Option<Seq<char>>, Seq<u8>)> {
    files.map_values(|f: ArchiveFile| f.entry())
}

/// The bytes that gzip-compressed data decompresses to (its first member);
/// `None` where the data cannot be decompressed.
pub uninterp spec fn gzip_decoded(data: Seq<u8>) -> Option<Seq<u8>>;

/// Decompresses gzip data held in memory with `flate2::read::GzDecoder` and
/// `std::io::Read::read_to_end`. flate2 decodes the bytes alone, so the
/// contract names whether this succeeds and what it gives as a function of
/// the bytes; it says nothing of the error value.
#[verifier::external_body]
fn gunzip(data: &[u8]) -> (r: Result<Vec<u8>, std::io::Error>)
    ensures
        r is Ok <==> gzip_decoded(data@) is Some,
        r matches Ok(out) ==> gzip_decoded(data@) == Some(out@),
{
    let mut out = Vec::new();
    std::io::Read::read_to_end(&mut flate2::read::GzDecoder::new(data), &mut out)?;
    Ok(out)
}

/// Whether the 512-byte block number `b` of a tar stream is a GNU sparse
/// header (type `S`, GNU magic `ustar  \0`) whose extension flag is set, so
/// that further sparse headers follow it.
pub open spec fn is_extended_sparse_block(data: Seq<u8>, b: int) -> bool {
    let p = 512 * b;
    &&& 0 <= b
    &&& p + 512 <= data.len()
    &&& data[p + 156] == 83
    &&& data.subrange(p + 257, p + 265) == seq![117u8, 115, 116, 97, 114, 32, 32, 0]
    &&& data[p + 482] == 1
}

/// Whether some block of a tar stream is an extended GNU sparse header.
pub open spec fn has_extended_sparse_header(data: Seq<u8>) -> bool {
    exists|b: int| #[trigger] is_extended_sparse_block(data, b)
}

/// Whether some block of a tar stream is an extended GNU sparse header.
pub fn contains_extended_sparse_header(data: &[u8]) -> (r: bool)
    ensures
        r == has_extended_sparse_header(data@),
{
    let magic: [u8; 8] = [117u8, 115, 116, 97, 114, 32, 32, 0];
    let len = data.len();
    let mut p: usize = 0;
    let ghost mut b: int = 0;
    while p < len && len - p >= 512
        invariant
            len == data@.len(),
            p == 512 * b,
            0 <= b,
            p <= len,
            magic@ == seq![117u8, 115, 116, 97, 114, 32, 32, 0],
            forall|k: int| 0 <= k < b ==> !is_extended_sparse_block(data@, k),
        decreases len - p,
    {
        let mut same = true;
        let mut j: usize = 0;
        while j < 8
            invariant
                len == data@.len(),
                p + 512 <= len,
                j <= 8,
                magic@ == seq![117u8, 115, 116, 97, 114, 32, 32, 0],
                same <==> forall|k: int| 0 <= k < j ==> data@[p + 257 + k] == magic@[k],
            decreases 8 - j,
        {
            if data[p + 257 + j] != magic[j] {
                same = false;
            }
            j = j + 1;
        }
        proof {
            let sub = data@.subrange(p + 257, p + 265);
            if same {
                assert(sub =~= magic@);
            } else {
                let k = choose|k: int| 0 <= k < 8 && data@[p + 257 + k] != magic@[k];
                assert(sub[k] != magic@[k]);
            }
        }
        if data[p + 156] == 83 && same && data[p + 482] == 1 {
            assert(is_extended_sparse_block(data@, b));
            return true;
        }
        p = p + 512;
        proof {
            b = b + 1;
        }
    }
    proof {
        assert forall|k: int| !is_extended_sparse_block(data@, k) by {
            if k >= b && is_extended_sparse_block(data@, k) {
                assert(512 * k >= 512 * b);
            }
        }
    }
    false
}

/// The files, in order, that an uncompressed tar stream holds, each as its
/// file name and contents; `None` where the stream cannot be read. It is the
/// reading on the target the library is compiled for.
pub uninterp spec fn tar_entries(data: Seq<u8>) -> Option<Seq<(Option<Seq<char>>, Seq<u8>)>>;

/// Reads a tar stream held in memory through `tar::Archive::new(..)`: for
/// each entry of `Archive::entries`, in order, its contents
/// (`std::io::Read::read_to_end`) and the file name of `Entry::path` (std's
/// `Path::file_name`, then `OsStr::to_str`), where that name is valid UTF-8.
/// tar decodes the bytes alone, so the contract names whether this succeeds
/// and the files it gives as a function of the bytes; it says nothing of the
/// error value. The name holds for one compile target: tar decodes paths
/// differently on Windows and on Unix, and std's path functions do too.
/// tar's reading panics on an extended GNU sparse header whose declared size
/// (its size field, or a PAX `size` record before it) brings its stream
/// offset near `u64::MAX`: `parse_sparse_header` adds a block to that offset
/// for each extension block, without a check. The `requires` leaves out every
/// stream with an extended GNU sparse header. Left unsaid: the memory that
/// reading takes, which a sparse entry's declared holes can make large.
#[verifier::external_body]
fn read_tar(data: &[u8]) -> (r: Result<Vec<ArchiveFile>, std::io::Error>)
    requires
        !has_extended_sparse_header(data@),
    ensures
        r is Ok <==> tar_entries(data@) is Some,
        r matches Ok(files) ==> tar_entries(data@) == Some(entries_of(files@)),
{
    let mut files = Vec::new();
    for entry in tar::Archive::new(data).entries()? {
        let mut entry = entry?;
        let mut contents = Vec::new();
        std::io::Read::read_to_end(&mut entry, &mut contents)?;
        let name = entry.path()?.file_name().and_then(|n| n.to_str()).map(|n| n.to_string());
        files.push(ArchiveFile { name, contents });
    }
    Ok(files)
}

/// Calls `String::from_utf8`, which, as its documentation says, succeeds
/// exactly when the bytes are valid UTF-8 and then holds the characters they
/// encode.
#[verifier::external_body]
fn string_from_utf8(bytes: Vec<u8>) -> (r: Result<String, std::string::FromUtf8Error>)
    ensures
        r is Ok <==> valid_utf8(bytes@),
        r matches Ok(s) ==> s@ == decode_utf8(bytes@),
{
    String::from_utf8(bytes)
}

/// What a file of the archive is, by its file name.
#[derive(Clone, Copy, Debug, PartialEq, Eq)]
pub enum ArchiveFileKind {
    DomainCapabilities,
    Capabilities,
    SupportedFeatures,
    Version,
    Other,
}

/// The kind of the file named `name`.
pub open spec fn file_kind(name: Seq<char>) -> ArchiveFileKind {
    if name == "virsh_domcapabilities.xml"@ {
        ArchiveFileKind::DomainCapabilities
    } else if name == "capabilities.xml"@ {
        ArchiveFileKind::Capabilities
    } else if name == "supported_features.xml"@ {
        ArchiveFileKind::SupportedFeatures
    } else if name == ".version"@ {
        ArchiveFileKind::Version
    } else {
        ArchiveFileKind::Other
    }
}

/// The kind of the file named `name`.
pub fn classify_archive_file(name: &str) -> (r: ArchiveFileKind)
    ensures
        r == file_kind(name@),
{
    if str_eq(name, "virsh_domcapabilities.xml") {
        ArchiveFileKind::DomainCapabilities
    } else if str_eq(name, "capabilities.xml") {
        ArchiveFileKind::Capabilities
    } else if str_eq(name, "supported_features.xml") {
        ArchiveFileKind::SupportedFeatures
    } else if str_eq(name, ".version") {
        ArchiveFileKind::Version
    } else {
        ArchiveFileKind::Other
    }
}

/// What a recognised file of an archive gives.
pub enum NodeFileView {
    /// A libvirt document of the given kind, as its bytes.
    Document(ArchiveFileKind, Seq<u8>),
    /// The `virsh` version, trimmed of whitespace.
    Version(Seq<char>),
    /// A version file that is not valid UTF-8.
    VersionNotUtf8,
}

/// A recognised file of a node's archive.
#[derive(Debug)]
pub enum NodeFile {
    DomainCapabilities(Vec<u8>),
    Capabilities(Vec<u8>),
    SupportedFeatures(Vec<u8>),
    /// The `virsh` version, trimmed of whitespace.
    Version(String),
    /// A version file that is not valid UTF-8.
    VersionNotUtf8(std::string::FromUtf8Error),
}

impl NodeFile {
    /// What this file gives.
    pub open spec fn gives(self) -> NodeFileView {
        match self {
            NodeFile::DomainCapabilities(b) => NodeFileView::Document(ArchiveFileKind::DomainCapabilities, b@),
            NodeFile::Capabilities(b) => NodeFileView::Document(ArchiveFileKind::Capabilities, b@),
            NodeFile::SupportedFeatures(b) => NodeFileView::Document(ArchiveFileKind::SupportedFeatures, b@),
            NodeFile::Version(v) => NodeFileView::Version(v@),
            NodeFile::VersionNotUtf8(_) => NodeFileView::VersionNotUtf8,
        }
    }
}

/// What each of a list of recognised files gives.
pub open spec fn node_file_views(files: Seq<NodeFile>) -> Seq<NodeFileView> {
    files.map_values(|f: NodeFile| f.gives())
}

/// What an archive entry gives: a document or a version when its file name
/// is one of the recognised ones, nothing otherwise.
pub open spec fn node_file_of(entry: (Option<Seq<char>>, Seq<u8>)) -> Option<NodeFileView> {
    match entry.0 {
        None => None,
        Some(name) => {
            let kind = file_kind(name);
            if kind == ArchiveFileKind::Other {
                None
            } else if kind == ArchiveFileKind::Version {
                if valid_utf8(entry.1) {
                    Some(NodeFileView::Version(trim_ws(decode_utf8(entry.1))))
                } else {
                    Some(NodeFileView::VersionNotUtf8)
                }
            } else {
                Some(NodeFileView::Document(kind, entry.1))
            }
        },
    }
}

/// What the entries of an archive give, in their order.
pub open spec fn node_files_of(entries: Seq<(Option<Seq<char>>, Seq<u8>)>) -> Seq<NodeFileView>
    decreases entries.len(),
{
    if entries.len() == 0 {
        seq![]
    } else {
        let earlier = node_files_of(entries.drop_last());
        match node_file_of(entries.last()) {
            Some(f) => earlier.push(f),
            None => earlier,
        }
    }
}

/// Why the files of a node could not be read.
#[derive(Debug)]
pub enum UnpackError {
    /// The archive cannot be decompressed.
    Gzip(std::io::Error),
    /// The decompressed archive holds an extended GNU sparse header, which
    /// this library does not read.
    ExtendedSparseEntry,
    /// The decompressed archive is not a readable tar stream.
    Tar(std::io::Error),
}

/// Picks the libvirt documents and the version files out of the files of an
/// archive, in their order; a version is decoded and trimmed of whitespace.
pub fn select_node_files(files: Vec<ArchiveFile>) -> (r: Vec<NodeFile>)
    ensures
        node_file_views(r@) == node_files_of(entries_of(files@)),
{
    let ghost all = entries_of(files@);
    let mut rest = files;
    let mut out: Vec<NodeFile> = Vec::new();
    let ghost mut done: int = 0;
    assert(all.take(0) =~= Seq::<(Option<Seq<char>>, Seq<u8>)>::empty());
    assert(node_file_views(out@) =~= Seq::<NodeFileView>::empty());
    while rest.len() > 0
        invariant
            all == entries_of(files@),
            0 <= done <= all.len(),
            done + rest@.len() == all.len(),
            entries_of(rest@) == all.skip(done),
            node_file_views(out@) == node_files_of(all.take(done)),
        decreases rest@.len(),
    {
        let ghost before = rest@;
        let ghost before_out = out@;
        let file = rest.remove(0);
        proof {
            assert(file == before[0]);
            assert(entries_of(before)[0] == before[0].entry());
            assert(all.skip(done)[0] == all[done]);
            assert(file.entry() == all[done]);
            assert forall|k: int| 0 <= k < rest@.len() implies entries_of(rest@)[k] == all.skip(
                done + 1,
            )[k] by {
                assert(rest@[k] == before[k + 1]);
                assert(entries_of(before)[k + 1] == before[k + 1].entry());
                assert(all.skip(done)[k + 1] == all[done + 1 + k]);
            }
            assert(entries_of(rest@) =~= all.skip(done + 1));
            assert(all.take(done + 1).drop_last() =~= all.take(done));
            assert(all.take(done + 1).last() == all[done]);
        }
        let kind = match &file.name {
            Some(name) => classify_archive_file(name.as_str()),
            None => ArchiveFileKind::Other,
        };
        let contents = file.contents;
        match kind {
            ArchiveFileKind::DomainCapabilities => {
                out.push(NodeFile::DomainCapabilities(contents));
            },
            ArchiveFileKind::Capabilities => {
                out.push(NodeFile::Capabilities(contents));
            },
            ArchiveFileKind::SupportedFeatures => {
                out.push(NodeFile::SupportedFeatures(contents));
            },
            ArchiveFileKind::Version => {
                match string_from_utf8(contents) {
                    Ok(text) => {
                        out.push(NodeFile::Version(trim_whitespace(text.as_str())));
                    },
                    Err(e) => {
                        out.push(NodeFile::VersionNotUtf8(e));
                    },
                }
            },
            ArchiveFileKind::Other => {},
        }
        proof {
            if out@.len() > before_out.len() {
                assert(node_file_views(out@) =~= node_file_views(before_out).push(out@.last().gives()));
            } else {
                assert(node_file_views(out@) =~= node_file_views(before_out));
            }
            done = done + 1;
        }
    }
    assert(all.take(done) =~= all);
    out
}

/// The libvirt documents and version files in a node's gzip-compressed tar
/// archive, in their order.
pub fn node_files(archive: &[u8]) -> (r: Result<Vec<NodeFile>, UnpackError>)
    ensures
        gzip_decoded(archive@) is None ==> (r matches Err(e) && e is Gzip),
        gzip_decoded(archive@) matches Some(data) ==> {
            &&& has_extended_sparse_header(data) ==> (r matches Err(e) && e is ExtendedSparseEntry)
            &&& !has_extended_sparse_header(data) ==> {
                &&& r is Ok <==> tar_entries(data) is Some
                &&& r matches Err(e) ==> e is Tar
                &&& r matches Ok(files) ==> node_file_views(files@) == node_files_of(
                    tar_entries(data)->0,
                )
            }
        },
{
    let data = match gunzip(archive) {
        Ok(data) => data,
        Err(e) => {
            return Err(UnpackError::Gzip(e));
        },
    };
    if contains_extended_sparse_header(data.as_slice()) {
        return Err(UnpackError::ExtendedSparseEntry);
    }
    match read_tar(data.as_slice()) {
        Ok(files) => Ok(select_node_files(files)),
        Err(e) => Err(UnpackError::Tar(e)),
    }
}

} // verus!

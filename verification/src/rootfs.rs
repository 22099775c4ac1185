//! The initramfs builder: an append-only newc archive of directories,
//! files, and symlinks, with inode numbers assigned 1, 2, 3, ... in
//! insertion order.
use crate::newc::{
    append_raw_entry, archive_bytes, can_append, dir_entry, entries_bytes, file_entry,
    lemma_archive_round_trip, lemma_entries_bytes_push, mode_bits, nlink_bits, parse_archive,
    symlink_entry, trailer_name, wf_entry, CpioEntry, MODE_DIR, MODE_FILE, MODE_SYMLINK,
};
use crate::BuildError;
use vstd::prelude::*;
use vstd::string::StringExecFns;
use vstd::utf8::{encode_scalar, encode_utf8};

verus! {

/// The growing archive: the encoded bytes so far and the next inode number.
/// Its abstract value is the sequence of entries appended so far.
pub struct CpioRootfsState {
    cpio_buffer: Vec<u8>,
    inode_counter: u32,
    entries: Ghost<Seq<CpioEntry>>,
}

impl View for CpioRootfsState {
    type V = Seq<CpioEntry>;

    closed spec fn view(&self) -> Seq<CpioEntry> {
        self.entries@
    }
}

impl CpioRootfsState {
    /// The buffer holds exactly the encodings of the entries appended so
    /// far, the inode counter is one past the last inode handed out, and
    /// every entry fits the 32-bit header fields.
    pub closed spec fn wf(self) -> bool {
        &&& self.inode_counter as int == self@.len() + 1
        &&& self@.len() + 1 <= u32::MAX
        &&& self.cpio_buffer@ == entries_bytes(self@)
        &&& forall|i: int| 0 <= i < self@.len() ==> wf_entry(#[trigger] self@[i])
    }

    /// An empty archive; the first entry will get inode number 1.
    pub fn new() -> (r: Self)
        ensures
            r.wf(),
            r@ == Seq::<CpioEntry>::empty(),
    {
        CpioRootfsState {
            cpio_buffer: Vec::new(),
            inode_counter: 1,
            entries: Ghost(Seq::empty()),
        }
    }

    /// Appends one entry under the next inode number, after checking that
    /// its name and payload sizes fit the header fields.
    fn add_entry(
        &mut self,
        mode: u32,
        nlink: u32,
        path: &str,
        data: &[u8],
        Ghost(e): Ghost<CpioEntry>,
    ) -> (r: Result<(), BuildError>)
        requires
            old(self).wf(),
            mode == mode_bits(e.kind),
            nlink == nlink_bits(e.kind),
            e.path == path@,
            e.data == data@,
        ensures
            final(self).wf(),
            r is Ok <==> can_append(old(self)@, e),
            r is Ok ==> final(self)@ == old(self)@.push(e),
            r is Err ==> final(self)@ == old(self)@ && r == Err::<(), BuildError>(
                BuildError::Encoding,
            ),
    {
        let name = path.as_bytes();
        if name.len() >= u32::MAX as usize {
            return Err(BuildError::Encoding);
        }
        if data.len() > u32::MAX as usize {
            return Err(BuildError::Encoding);
        }
        if self.inode_counter == u32::MAX {
            return Err(BuildError::Encoding);
        }
        append_raw_entry(&mut self.cpio_buffer, self.inode_counter, mode, nlink, name, data);
        proof {
            lemma_entries_bytes_push(self.entries@, e);
            assert(self.inode_counter == (self.entries@.len() + 1) as u32);
        }
        self.inode_counter = self.inode_counter + 1;
        self.entries = Ghost(self.entries@.push(e));
        Ok(())
    }

    /// Appends a regular file with content `data`.
    pub fn new_file(&mut self, path: &str, data: &[u8]) -> (r: Result<(), BuildError>)
        requires
            old(self).wf(),
        ensures
            final(self).wf(),
            r is Ok <==> can_append(old(self)@, file_entry(path@, data@)),
            r is Ok ==> final(self)@ == old(self)@.push(file_entry(path@, data@)),
            r is Err ==> final(self)@ == old(self)@ && r == Err::<(), BuildError>(
                BuildError::Encoding,
            ),
    {
        self.add_entry(MODE_FILE, 1, path, data, Ghost(file_entry(path@, data@)))
    }

    /// Appends a directory (no payload).
    pub fn new_directory(&mut self, path: &str) -> (r: Result<(), BuildError>)
        requires
            old(self).wf(),
        ensures
            final(self).wf(),
            r is Ok <==> can_append(old(self)@, dir_entry(path@)),
            r is Ok ==> final(self)@ == old(self)@.push(dir_entry(path@)),
            r is Err ==> final(self)@ == old(self)@ && r == Err::<(), BuildError>(
                BuildError::Encoding,
            ),
    {
        let empty: Vec<u8> = Vec::new();
        self.add_entry(MODE_DIR, 2, path, empty.as_slice(), Ghost(dir_entry(path@)))
    }

    /// Appends a symbolic link whose payload is the UTF-8 bytes of `target`.
    pub fn new_symlink(&mut self, path: &str, target: &str) -> (r: Result<(), BuildError>)
        requires
            old(self).wf(),
        ensures
            final(self).wf(),
            r is Ok <==> can_append(old(self)@, symlink_entry(path@, target@)),
            r is Ok ==> final(self)@ == old(self)@.push(symlink_entry(path@, target@)),
            r is Err ==> final(self)@ == old(self)@ && r == Err::<(), BuildError>(
                BuildError::Encoding,
            ),
    {
        self.add_entry(
            MODE_SYMLINK,
            1,
            path,
            target.as_bytes(),
            Ghost(symlink_entry(path@, target@)),
        )
    }

    /// Appends the trailer record and returns the finished archive bytes.
    /// The builder is consumed; nothing can be appended afterwards.
    pub fn finish(self) -> (r: Result<Vec<u8>, BuildError>)
        requires
            self.wf(),
        ensures
            r matches Ok(b) && b@ == archive_bytes(self@),
    {
        let mut buf = self.cpio_buffer;
        let mut tname: Vec<u8> = Vec::new();
        tname.push(84);
        tname.push(82);
        tname.push(65);
        tname.push(73);
        tname.push(76);
        tname.push(69);
        tname.push(82);
        tname.push(33);
        tname.push(33);
        tname.push(33);
        proof {
            assert(tname@ =~= trailer_name());
        }
        let empty: Vec<u8> = Vec::new();
        append_raw_entry(&mut buf, 0, 0, 1, tname.as_slice(), empty.as_slice());
        Ok(buf)
    }
}

/// A well-formed archive's entries all fit the header fields, and inode
/// numbers for one more entry and the trailer are still available.
pub proof fn lemma_wf_entries(s: CpioRootfsState)
    requires
        s.wf(),
    ensures
        s@.len() + 1 <= u32::MAX,
        forall|i: int| 0 <= i < s@.len() ==> wf_entry(#[trigger] s@[i]),
{
}

/// The archive round-trip law, at the builder: the bytes that `finish`
/// returns for a well-formed builder parse back to exactly the entries
/// appended to it, in insertion order, followed by one trailer record.
pub proof fn lemma_builder_round_trip(s: CpioRootfsState)
    requires
        s.wf(),
    ensures
        parse_archive(archive_bytes(s@)) == Some(s@),
{
    lemma_wf_entries(s);
    lemma_archive_round_trip(s@);
}

/// The UTF-8 encoding of a character sequence takes at most four bytes per
/// character.
pub proof fn lemma_encode_utf8_len_le(s: Seq<char>)
    ensures
        encode_utf8(s).len() <= 4 * s.len(),
    decreases s.len(),
{
    if s.len() > 0 {
        lemma_encode_utf8_len_le(s.drop_first());
        assert(encode_scalar(s[0] as u32).len() <= 4);
    }
}

/// The six base directories of the root filesystem, in insertion order.
pub open spec fn base_entries() -> Seq<CpioEntry> {
    seq![
        dir_entry("bin"@),
        dir_entry("etc"@),
        dir_entry("proc"@),
        dir_entry("syc"@),
        dir_entry("dev"@),
        dir_entry("tmp"@),
    ]
}

/// Starts a fresh archive holding exactly the six base directories.
pub fn create_base_rootfs() -> (r: Result<CpioRootfsState, BuildError>)
    ensures
        r is Ok,
        r matches Ok(s) ==> s.wf() && s@ == base_entries(),
{
    proof {
        reveal_strlit("bin");
        reveal_strlit("etc");
        reveal_strlit("proc");
        reveal_strlit("syc");
        reveal_strlit("dev");
        reveal_strlit("tmp");
        lemma_encode_utf8_len_le("bin"@);
        lemma_encode_utf8_len_le("etc"@);
        lemma_encode_utf8_len_le("proc"@);
        lemma_encode_utf8_len_le("syc"@);
        lemma_encode_utf8_len_le("dev"@);
        lemma_encode_utf8_len_le("tmp"@);
    }
    let mut state = CpioRootfsState::new();
    if state.new_directory("bin").is_err() {
        return Err(BuildError::Encoding);
    }
    if state.new_directory("etc").is_err() {
        return Err(BuildError::Encoding);
    }
    if state.new_directory("proc").is_err() {
        return Err(BuildError::Encoding);
    }
    if state.new_directory("syc").is_err() {
        return Err(BuildError::Encoding);
    }
    if state.new_directory("dev").is_err() {
        return Err(BuildError::Encoding);
    }
    if state.new_directory("tmp").is_err() {
        return Err(BuildError::Encoding);
    }
    proof {
        assert(state@ =~= base_entries());
    }
    Ok(state)
}

/// The busybox binary at `bin/busybox`, then one symlink `bin/<cmd>` to
/// `busybox` per command, in list order.
pub open spec fn busybox_entries(busybox: Seq<u8>, cmds: Seq<Seq<char>>) -> Seq<CpioEntry> {
    seq![file_entry("bin/busybox"@, busybox)] + Seq::new(
        cmds.len(),
        |i: int| symlink_entry("bin/"@ + cmds[i], "busybox"@),
    )
}

/// Whether every entry of the batch `es` fits the header fields and the
/// archive `es0` still has inode numbers left for all of them.
pub open spec fn can_append_all(es0: Seq<CpioEntry>, es: Seq<CpioEntry>) -> bool {
    &&& forall|i: int| 0 <= i < es.len() ==> wf_entry(#[trigger] es[i])
    &&& es0.len() + es.len() + 1 <= u32::MAX
}

/// Installs the busybox binary at `bin/busybox` and one symlink
/// `bin/<cmd>` to `busybox` per entry of `busybox_commands`, preserving
/// list order. The `bin` directory is expected to be in the archive
/// already.
pub fn install_busybox(
    state: &mut CpioRootfsState,
    busybox_binary: &[u8],
    busybox_commands: &[String],
) -> (r: Result<(), BuildError>)
    requires
        old(state).wf(),
    ensures
        final(state).wf(),
        r is Ok <==> can_append_all(
            old(state)@,
            busybox_entries(busybox_binary@, busybox_commands.deep_view()),
        ),
        r is Ok ==> final(state)@ == old(state)@ + busybox_entries(
            busybox_binary@,
            busybox_commands.deep_view(),
        ),
        r is Err ==> r == Err::<(), BuildError>(BuildError::Encoding),
{
    let ghost es = busybox_entries(busybox_binary@, busybox_commands.deep_view());
    if let Err(e) = state.new_file("bin/busybox", busybox_binary) {
        proof {
            assert(es[0] == file_entry("bin/busybox"@, busybox_binary@));
            assert(!can_append_all(old(state)@, es));
        }
        return Err(e);
    }
    proof {
        assert(state@ =~= old(state)@ + es.take(1));
    }
    let mut i: usize = 0;
    while i < busybox_commands.len()
        invariant
            state.wf(),
            i <= busybox_commands@.len(),
            es == busybox_entries(busybox_binary@, busybox_commands.deep_view()),
            es.len() == 1 + busybox_commands@.len(),
            state@ == old(state)@ + es.take(1 + i as int),
            forall|j: int| 0 <= j < 1 + i ==> wf_entry(#[trigger] es[j]),
        decreases busybox_commands@.len() - i,
    {
        let cmd = &busybox_commands[i];
        let mut sp = String::from_str("bin/");
        sp.append(cmd.as_str());
        proof {
            assert(es[1 + i as int] == symlink_entry(sp@, "busybox"@));
        }
        if let Err(e) = state.new_symlink(sp.as_str(), "busybox") {
            proof {
                if wf_entry(es[1 + i as int]) {
                    assert(old(state)@.len() + es.len() + 1 > u32::MAX);
                }
                assert(!can_append_all(old(state)@, es));
            }
            return Err(e);
        }
        proof {
            assert(es.take(1 + (i + 1) as int) =~= es.take(1 + i as int).push(es[1 + i as int]));
        }
        i = i + 1;
    }
    proof {
        assert(es.take(es.len() as int) =~= es);
        assert(state@ == old(state)@ + es);
    }
    Ok(())
}

/// Installs the init script as the regular file `/init`.
pub fn install_init_script(state: &mut CpioRootfsState, script_content: &str) -> (r: Result<
    (),
    BuildError,
>)
    requires
        old(state).wf(),
    ensures
        final(state).wf(),
        r is Ok <==> can_append(old(state)@, file_entry("/init"@, encode_utf8(script_content@))),
        r is Ok ==> final(state)@ == old(state)@.push(
            file_entry("/init"@, encode_utf8(script_content@)),
        ),
        r is Err ==> final(state)@ == old(state)@ && r == Err::<(), BuildError>(
            BuildError::Encoding,
        ),
{
    state.new_file("/init", script_content.as_bytes())
}

/// Installs one configured extra file at its target path.
pub fn install_extra_bin_file(
    state: &mut CpioRootfsState,
    target_path: &str,
    file_content: &[u8],
) -> (r: Result<(), BuildError>)
    requires
        old(state).wf(),
    ensures
        final(state).wf(),
        r is Ok <==> can_append(old(state)@, file_entry(target_path@, file_content@)),
        r is Ok ==> final(state)@ == old(state)@.push(file_entry(target_path@, file_content@)),
        r is Err ==> final(state)@ == old(state)@ && r == Err::<(), BuildError>(
            BuildError::Encoding,
        ),
{
    state.new_file(target_path, file_content)
}

/// Finishes the archive: appends the trailer and hands back the bytes.
pub fn finalize_rootfs(state: CpioRootfsState) -> (r: Result<Vec<u8>, BuildError>)
    requires
        state.wf(),
    ensures
        r matches Ok(b) && b@ == archive_bytes(state@),
{
    state.finish()
}

} // verus!

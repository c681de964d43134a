//! Assembling the bootable disk image.
//!
//! The bootloader's compiled executable is converted to a flat binary by an
//! external object-copy utility and then padded: firmware loads a raw disk
//! image sector by sector, so the image file must grow to the next multiple
//! of the 512-byte sector size. This module computes the conversion command,
//! the padding, and the boot-menu text of the alternate ISO output mode; the
//! caller runs the tools and extends the file.

use crate::command::CommandLine;
use crate::paths;
use crate::strutil;
use vstd::prelude::*;

verus! {

/// The sector size that firmware assumes when loading a raw disk image.
pub const BLOCK_SIZE: u64 = 512;

/// The length of `size` after padding to the next multiple of the block size.
pub open spec fn spec_padded_size(size: int) -> int {
    if size % 512 == 0 {
        size
    } else {
        size + (512 - size % 512)
    }
}

/// The number of zero bytes that must be appended to a file of length
/// `file_size` so that its length becomes a multiple of the block size.
pub fn padding_for_size(file_size: u64) -> (padding: u64)
    ensures
        padding < 512,
        file_size + padding == spec_padded_size(file_size as int),
        (file_size + padding) % 512 == 0,
{
    let remainder = file_size % BLOCK_SIZE;
    if remainder > 0 {
        BLOCK_SIZE - remainder
    } else {
        0
    }
}

/// Padding an already aligned size is a no-op, and padding never needs to be
/// applied twice: the padded size is always a multiple of the block size.
pub proof fn lemma_padding_idempotent(size: int)
    requires
        size >= 0,
    ensures
        spec_padded_size(size) % 512 == 0,
        spec_padded_size(spec_padded_size(size)) == spec_padded_size(size),
        size % 512 == 0 ==> spec_padded_size(size) == size,
{
}

/// A bootable disk image: where it lies and how long it is. Its length is
/// always a whole number of sectors.
pub struct BootableImage {
    /// The image file's path.
    pub path: String,
    /// The image file's length in bytes.
    pub len: u64,
}

impl BootableImage {
    /// The image is block aligned.
    pub open spec fn wf(&self) -> bool {
        self.len % 512 == 0
    }

    /// Describes the image at `path` after a flat binary of `raw_len` bytes
    /// has been padded to the next sector boundary.
    pub fn from_raw_size(path: String, raw_len: u64) -> (r: Self)
        requires
            raw_len + 511 <= u64::MAX,
        ensures
            r.wf(),
            r.path@ == path@,
            r.len == spec_padded_size(raw_len as int),
    {
        let padding = padding_for_size(raw_len);
        BootableImage { path, len: raw_len + padding }
    }
}

/// The arguments of the object-copy invocation that turns the bootloader
/// ELF at `elf_path` into the flat binary at `bin_path`: the input format is
/// 64-bit ELF, the output a flat binary for the 16/32-bit startup
/// environment that firmware provides, whatever the ELF declares.
pub open spec fn spec_objcopy_args(elf_path: Seq<char>, bin_path: Seq<char>) -> Seq<Seq<char>> {
    seq![
        "-I"@,
        "elf64-x86-64"@,
        "-O"@,
        "binary"@,
        "--binary-architecture=i386:x86-64"@,
        elf_path,
        bin_path,
    ]
}

/// The object-copy command converting `elf_path` to a flat binary at
/// `bin_path`, run with the utility at `objcopy_path`.
pub fn objcopy_command(objcopy_path: &str, elf_path: &str, bin_path: &str) -> (r: CommandLine)
    ensures
        r.program@ == objcopy_path@,
        r.args.deep_view() == spec_objcopy_args(elf_path@, bin_path@),
        r.envs.deep_view() == Seq::<(Seq<char>, Seq<char>)>::empty(),
{
    let mut cmd = CommandLine::new(objcopy_path.to_owned());
    cmd.arg("-I".to_owned());
    cmd.arg("elf64-x86-64".to_owned());
    cmd.arg("-O".to_owned());
    cmd.arg("binary".to_owned());
    cmd.arg("--binary-architecture=i386:x86-64".to_owned());
    cmd.arg(elf_path.to_owned());
    cmd.arg(bin_path.to_owned());
    proof {
        assert(cmd.args.deep_view() =~~= spec_objcopy_args(elf_path@, bin_path@));
    }
    cmd
}

/// The boot-menu text of the ISO output mode: a single entry named after
/// the binary that chain-loads the flattened kernel.
pub fn grub_cfg_content(bin_name: &str) -> (r: String)
    ensures
        r@ == "set timeout=0\nset default=0\n\nmenuentry \""@ + bin_name@
            + "\" {\n    multiboot2 /boot/kernel.elf\n    boot\n}\n"@,
{
    strutil::concat3(
        "set timeout=0\nset default=0\n\nmenuentry \"",
        bin_name,
        "\" {\n    multiboot2 /boot/kernel.elf\n    boot\n}\n",
    )
}

/// The ISO-mastering command that turns the staging directory `isodir` into
/// the image at `output_bin_path`.
pub fn mkrescue_command(output_bin_path: &str, isodir: &str) -> (r: CommandLine)
    ensures
        r.program@ == "grub-mkrescue"@,
        r.args.deep_view() == seq!["-o"@, output_bin_path@, isodir@],
        r.envs.deep_view() == Seq::<(Seq<char>, Seq<char>)>::empty(),
{
    let mut cmd = CommandLine::new("grub-mkrescue".to_owned());
    cmd.arg("-o".to_owned());
    cmd.arg(output_bin_path.to_owned());
    cmd.arg(isodir.to_owned());
    proof {
        assert(cmd.args.deep_view() =~~= seq!["-o"@, output_bin_path@, isodir@]);
    }
    cmd
}

/// The path of the bootable image created next to a kernel executable: the
/// executable's directory, with the image named after the executable's stem.
pub fn bootimage_bin_path(executable: &str) -> (r: Option<String>)
    ensures
        match r {
            Some(p) => paths::spec_parent(executable@) matches Some(dir)
                && paths::spec_file_stem(executable@) matches Some(stem) && p@ == dir + "/"@
                + "bootimage-"@ + stem + ".bin"@,
            None => paths::spec_parent(executable@) is None || paths::spec_file_stem(executable@)
                is None,
        },
{
    let dir = match paths::parent(executable) {
        Some(d) => d,
        None => {
            return None;
        },
    };
    let stem = match paths::file_stem(executable) {
        Some(s) => s,
        None => {
            return None;
        },
    };
    let name = strutil::concat3("bootimage-", stem.as_str(), ".bin");
    let p = paths::path_join(dir.as_str(), name.as_str());
    proof {
        assert(p@ =~= paths::spec_parent(executable@)->Some_0 + "/"@ + "bootimage-"@
            + paths::spec_file_stem(executable@)->Some_0 + ".bin"@);
    }
    Some(p)
}

} // verus!

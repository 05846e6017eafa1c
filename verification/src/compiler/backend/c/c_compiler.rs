//! The Zig C compiler: where it is fetched from, where it is kept, and how it is run.
use vstd::prelude::*;
use crate::text::push_str;

verus! {

/// The version of Zig whose C compiler is used.
pub const ZIG_VERSION: &'static str = "0.14.0-dev.1951+857383689";

/// The target that programs are compiled for.
pub const TARGET: &'static str = "x86_64-windows-gnu";

/// The C compiler: the Zig binary that runs it.
pub struct CCompiler {
    zig_binary: String,
}

/// The address of the archive of the Zig release.
pub open spec fn zig_download_url_text() -> Seq<char> {
    "https://ziglang.org/builds/zig-windows-x86_64-"@ + ZIG_VERSION@ + ".zip"@
}

/// The name of the directory, under the cache directory's `compiler` directory, that
/// holds the Zig release.
pub open spec fn compiler_directory_text() -> Seq<char> {
    "zig-"@ + ZIG_VERSION@
}

/// The address of the archive of the Zig release (see `zig_download_url_text`).
pub fn zig_download_url() -> (s: String)
    ensures
        s@ == zig_download_url_text(),
{
    let mut s = String::new();
    push_str(&mut s, "https://ziglang.org/builds/zig-windows-x86_64-");
    push_str(&mut s, ZIG_VERSION);
    push_str(&mut s, ".zip");
    s
}

/// The name of the directory that holds the Zig release (see `compiler_directory_text`).
pub fn compiler_directory_name() -> (s: String)
    ensures
        s@ == compiler_directory_text(),
{
    let mut s = String::new();
    push_str(&mut s, "zig-");
    push_str(&mut s, ZIG_VERSION);
    s
}

/// Where an entry of the release archive goes: its path components without the first
/// one, the directory named after the version.
pub fn strip_root_component(components: &Vec<String>) -> (r: Vec<String>)
    ensures
        r@.map_values(|c: String| c@) == if components@.len() == 0 {
            Seq::<Seq<char>>::empty()
        } else {
            components@.map_values(|c: String| c@).skip(1)
        },
{
    let mut r: Vec<String> = Vec::new();
    if components.len() == 0 {
        assert(r@.map_values(|c: String| c@) =~= Seq::<Seq<char>>::empty());
        return r;
    }
    let ghost parts = components@.map_values(|c: String| c@);
    let mut i: usize = 1;
    assert(r@.map_values(|c: String| c@) =~= parts.subrange(1, 1));
    while i < components.len()
        invariant
            parts == components@.map_values(|c: String| c@),
            1 <= i <= components@.len(),
            r@.map_values(|c: String| c@) == parts.subrange(1, i as int),
        decreases components.len() - i,
    {
        let part = components[i].clone();
        assert(part@ == parts[i as int]);
        let ghost before = r@;
        r.push(part);
        assert(r@.map_values(|c: String| c@) =~= before.map_values(|c: String| c@).push(part@));
        i = i + 1;
        assert(r@.map_values(|c: String| c@) =~= parts.subrange(1, i as int));
    }
    assert(parts.subrange(1, components@.len() as int) =~= parts.skip(1));
    r
}

impl CCompiler {
    /// A C compiler run by the Zig binary at `zig_binary`.
    pub fn from_zig_binary(zig_binary: String) -> (c: Self)
        ensures
            c.spec_zig_binary() == zig_binary@,
    {
        CCompiler { zig_binary }
    }

    /// The path of the Zig binary, in specifications.
    pub closed spec fn spec_zig_binary(&self) -> Seq<char> {
        self.zig_binary@
    }

    /// The path of the Zig binary.
    pub fn zig_binary(&self) -> (s: &str)
        ensures
            s@ == self.spec_zig_binary(),
    {
        self.zig_binary.as_str()
    }

    /// The arguments of the Zig binary that compile `source_file` into
    /// `destination_file`: `cc -o <destination> <source> -target x86_64-windows-gnu`.
    pub fn compile_arguments(&self, source_file: &str, destination_file: &str) -> (args: Vec<String>)
        ensures
            args@.map_values(|a: String| a@) == seq![
                "cc"@,
                "-o"@,
                destination_file@,
                source_file@,
                "-target"@,
                TARGET@,
            ],
    {
        let mut args: Vec<String> = Vec::new();
        args.push("cc".to_owned());
        args.push("-o".to_owned());
        args.push(destination_file.to_owned());
        args.push(source_file.to_owned());
        args.push("-target".to_owned());
        args.push(TARGET.to_owned());
        assert(args@.map_values(|a: String| a@) =~= seq![
            "cc"@,
            "-o"@,
            destination_file@,
            source_file@,
            "-target"@,
            TARGET@,
        ]);
        args
    }
}

} // verus!

use vstd::prelude::*;
use crate::file_type::{file_type_view, views, FileFlavor, FileType, FileTypeView};
use crate::kinds::{spec_is_dynamic, CrateType};
use crate::text::{
    contains, ends_with, spec_contains, spec_ends_with, spec_starts_with, starts_with, str_eq,
};

verus! {

/// The generic library kind is compiled as a Rust library.
pub open spec fn normalized(ct: CrateType) -> CrateType {
    if ct == CrateType::Lib {
        CrateType::Rlib
    } else {
        ct
    }
}

pub fn normalize(ct: CrateType) -> (r: CrateType)
    ensures
        r == normalized(ct),
{
    if ct == CrateType::Lib {
        CrateType::Rlib
    } else {
        ct
    }
}

/// Import and export companions of a Windows DLL.
pub open spec fn dll_companions(
    ct: CrateType,
    prefix: Seq<char>,
    suffix: Seq<char>,
    triple: Seq<char>,
) -> Seq<FileTypeView> {
    if spec_is_dynamic(ct) && suffix == ".dll"@ {
        if spec_ends_with(triple, "-windows-msvc"@) {
            seq![
                file_type_view(FileFlavor::Auxiliary, Some(ct), prefix, ".dll.lib"@, true),
                file_type_view(FileFlavor::Auxiliary, Some(ct), prefix, ".dll.exp"@, true),
            ]
        } else if spec_ends_with(triple, "windows-gnu"@) {
            seq![file_type_view(FileFlavor::Auxiliary, Some(ct), "lib"@, ".dll.a"@, true)]
        } else {
            seq![]
        }
    } else {
        seq![]
    }
}

/// The `.wasm` module and its source map beside an emscripten `.js` binary.
pub open spec fn wasm_companions(
    ct: CrateType,
    prefix: Seq<char>,
    suffix: Seq<char>,
    triple: Seq<char>,
) -> Seq<FileTypeView> {
    if spec_starts_with(triple, "wasm32-"@) && ct == CrateType::Bin && suffix == ".js"@ {
        seq![
            file_type_view(FileFlavor::Auxiliary, Some(ct), prefix, ".wasm"@, true),
            file_type_view(FileFlavor::DebugInfo, Some(ct), prefix, ".wasm.map"@, true),
        ]
    } else {
        seq![]
    }
}

pub open spec fn has_separate_debuginfo(ct: CrateType) -> bool {
    ct == CrateType::Bin || ct == CrateType::Dylib || ct == CrateType::Cdylib || ct
        == CrateType::ProcMacro
}

/// A `.dSYM` bundle on Apple platforms, a `.pdb` file with MSVC.
pub open spec fn debuginfo_companions(
    ct: CrateType,
    prefix: Seq<char>,
    triple: Seq<char>,
) -> Seq<FileTypeView> {
    if has_separate_debuginfo(ct) {
        if spec_contains(triple, "-apple-"@) {
            let suffix = if ct == CrateType::Bin {
                ".dSYM"@
            } else {
                ".dylib.dSYM"@
            };
            seq![file_type_view(FileFlavor::DebugInfo, Some(ct), prefix, suffix, false)]
        } else if spec_ends_with(triple, "-msvc"@) {
            seq![file_type_view(FileFlavor::DebugInfo, Some(ct), prefix, ".pdb"@, true)]
        } else {
            seq![]
        }
    } else {
        seq![]
    }
}

/// Every file emitted for a crate type whose prefix and suffix are known;
/// `ct` is already normalized.
pub open spec fn spec_file_types(
    ct: CrateType,
    flavor: FileFlavor,
    prefix: Seq<char>,
    suffix: Seq<char>,
    triple: Seq<char>,
) -> Seq<FileTypeView> {
    seq![file_type_view(flavor, Some(ct), prefix, suffix, ct != CrateType::Bin)] + dll_companions(
        ct,
        prefix,
        suffix,
        triple,
    ) + wasm_companions(ct, prefix, suffix, triple) + debuginfo_companions(ct, prefix, triple)
}

fn push_dll_companions(
    ret: &mut Vec<FileType>,
    ct: CrateType,
    prefix: &String,
    suffix: &String,
    triple: &str,
)
    ensures
        views(final(ret)@) == views(old(ret)@) + dll_companions(ct, prefix@, suffix@, triple@),
{
    let ghost start = views(ret@);
    if ct.is_dynamic() && str_eq(suffix.as_str(), ".dll") {
        if ends_with(triple, "-windows-msvc") {
            ret.push(
                FileType::new(
                    FileFlavor::Auxiliary,
                    Some(ct),
                    prefix.clone(),
                    String::from_str(".dll.lib"),
                    true,
                ),
            );
            ret.push(
                FileType::new(
                    FileFlavor::Auxiliary,
                    Some(ct),
                    prefix.clone(),
                    String::from_str(".dll.exp"),
                    true,
                ),
            );
        } else if ends_with(triple, "windows-gnu") {
            ret.push(
                FileType::new(
                    FileFlavor::Auxiliary,
                    Some(ct),
                    String::from_str("lib"),
                    String::from_str(".dll.a"),
                    true,
                ),
            );
        }
    }
    assert(views(ret@) =~= start + dll_companions(ct, prefix@, suffix@, triple@));
}

fn push_wasm_companions(
    ret: &mut Vec<FileType>,
    ct: CrateType,
    prefix: &String,
    suffix: &String,
    triple: &str,
)
    ensures
        views(final(ret)@) == views(old(ret)@) + wasm_companions(ct, prefix@, suffix@, triple@),
{
    let ghost start = views(ret@);
    if starts_with(triple, "wasm32-") && ct == CrateType::Bin && str_eq(suffix.as_str(), ".js") {
        ret.push(
            FileType::new(
                FileFlavor::Auxiliary,
                Some(ct),
                prefix.clone(),
                String::from_str(".wasm"),
                true,
            ),
        );
        ret.push(
            FileType::new(
                FileFlavor::DebugInfo,
                Some(ct),
                prefix.clone(),
                String::from_str(".wasm.map"),
                true,
            ),
        );
    }
    assert(views(ret@) =~= start + wasm_companions(ct, prefix@, suffix@, triple@));
}

fn push_debuginfo_companions(ret: &mut Vec<FileType>, ct: CrateType, prefix: &String, triple: &str)
    ensures
        views(final(ret)@) == views(old(ret)@) + debuginfo_companions(ct, prefix@, triple@),
{
    let ghost start = views(ret@);
    if matches!(ct, CrateType::Bin | CrateType::Dylib | CrateType::Cdylib | CrateType::ProcMacro) {
        if contains(triple, "-apple-") {
            let suffix = if ct == CrateType::Bin {
                String::from_str(".dSYM")
            } else {
                String::from_str(".dylib.dSYM")
            };
            ret.push(FileType::new(FileFlavor::DebugInfo, Some(ct), prefix.clone(), suffix, false));
        } else if ends_with(triple, "-msvc") {
            ret.push(
                FileType::new(
                    FileFlavor::DebugInfo,
                    Some(ct),
                    prefix.clone(),
                    String::from_str(".pdb"),
                    true,
                ),
            );
        }
    }
    assert(views(ret@) =~= start + debuginfo_companions(ct, prefix@, triple@));
}

/// The files emitted for a crate type (already normalized) with the given
/// prefix and suffix on the given target triple.
pub fn file_types_for(
    ct: CrateType,
    flavor: FileFlavor,
    prefix: &String,
    suffix: &String,
    triple: &str,
) -> (r: Vec<FileType>)
    ensures
        views(r@) == spec_file_types(ct, flavor, prefix@, suffix@, triple@),
{
    let mut ret: Vec<FileType> = Vec::new();
    ret.push(FileType::new(flavor, Some(ct), prefix.clone(), suffix.clone(), ct != CrateType::Bin));
    assert(views(ret@) =~= seq![
        file_type_view(flavor, Some(ct), prefix@, suffix@, ct != CrateType::Bin),
    ]);
    push_dll_companions(&mut ret, ct, prefix, suffix, triple);
    push_wasm_companions(&mut ret, ct, prefix, suffix, triple);
    push_debuginfo_companions(&mut ret, ct, prefix, triple);
    ret
}

proof fn lemma_windows_msvc_is_msvc(triple: Seq<char>)
    requires
        spec_ends_with(triple, "-windows-msvc"@),
    ensures
        spec_ends_with(triple, "-msvc"@),
{
    reveal_strlit("-windows-msvc");
    reveal_strlit("-msvc");
    let n = triple.len() as int;
    assert(triple.subrange(n - 13, n) == "-windows-msvc"@);
    assert forall|k: int| 0 <= k < 5 implies triple.subrange(n - 5, n)[k] == "-msvc"@[k] by {
        assert(triple.subrange(n - 5, n)[k] == triple.subrange(n - 13, n)[k + 8]);
    }
    assert(triple.subrange(n - 5, n) =~= "-msvc"@);
}

/// A dynamic library named `.dll` on an MSVC Windows triple comes with an
/// import library and an export file under the same prefix: exactly three
/// files besides the one debug info file that every such library has.
pub proof fn lemma_msvc_dll_files(
    ct: CrateType,
    flavor: FileFlavor,
    prefix: Seq<char>,
    triple: Seq<char>,
)
    requires
        spec_is_dynamic(ct),
        flavor != FileFlavor::DebugInfo,
        spec_ends_with(triple, "-windows-msvc"@),
    ensures
        ({
            let fs = spec_file_types(ct, flavor, prefix, ".dll"@, triple);
            &&& fs.len() == 4
            &&& fs[0].suffix == ".dll"@ && fs[1].suffix == ".dll.lib"@ && fs[2].suffix
                == ".dll.exp"@
            &&& fs[0].prefix == prefix && fs[1].prefix == prefix && fs[2].prefix == prefix
            &&& fs[3].flavor == FileFlavor::DebugInfo
            &&& forall|i: int| 0 <= i < 3 ==> fs[i].flavor != FileFlavor::DebugInfo
        }),
{
    lemma_windows_msvc_is_msvc(triple);
    let fs = spec_file_types(ct, flavor, prefix, ".dll"@, triple);
    assert(dll_companions(ct, prefix, ".dll"@, triple).len() == 2);
    assert(wasm_companions(ct, prefix, ".dll"@, triple).len() == 0);
    assert(debuginfo_companions(ct, prefix, triple).len() == 1);
}

/// A binary on an Apple triple gets exactly one extra file: its `.dSYM`
/// bundle, named with the hyphens kept (an emscripten `.js` binary aside).
pub proof fn lemma_apple_binary_files(
    flavor: FileFlavor,
    prefix: Seq<char>,
    suffix: Seq<char>,
    triple: Seq<char>,
)
    requires
        spec_contains(triple, "-apple-"@),
        !(spec_starts_with(triple, "wasm32-"@) && suffix == ".js"@),
    ensures
        spec_file_types(CrateType::Bin, flavor, prefix, suffix, triple) == seq![
            file_type_view(flavor, Some(CrateType::Bin), prefix, suffix, false),
            file_type_view(FileFlavor::DebugInfo, Some(CrateType::Bin), prefix, ".dSYM"@, false),
        ],
{
    assert(spec_file_types(CrateType::Bin, flavor, prefix, suffix, triple) =~= seq![
        file_type_view(flavor, Some(CrateType::Bin), prefix, suffix, false),
        file_type_view(FileFlavor::DebugInfo, Some(CrateType::Bin), prefix, ".dSYM"@, false),
    ]);
}

/// No file of a crate type is a metadata file unless asked for as one.
pub proof fn lemma_file_types_flavors(
    ct: CrateType,
    flavor: FileFlavor,
    prefix: Seq<char>,
    suffix: Seq<char>,
    triple: Seq<char>,
)
    requires
        flavor != FileFlavor::Rmeta,
    ensures
        forall|i: int|
            0 <= i < spec_file_types(ct, flavor, prefix, suffix, triple).len() ==> (#[trigger] spec_file_types(
                ct,
                flavor,
                prefix,
                suffix,
                triple,
            )[i]).flavor != FileFlavor::Rmeta,
{
}

} // verus!

use vstd::prelude::*;

use crate::bty::BytecodeType;

verus! {

/// Identifier of a package of the emitted program.
#[derive(Clone, Copy, Debug, PartialEq, Eq, Structural, Hash)]
pub struct PackageId(pub u32);

/// Identifier of a module of the emitted program.
#[derive(Clone, Copy, Debug, PartialEq, Eq, Structural, Hash)]
pub struct ModuleId(pub u32);

/// Identifier of a function of the emitted program.
#[derive(Clone, Copy, Debug, PartialEq, Eq, Structural, Hash)]
pub struct FunctionId(pub u32);

/// How a package is named: one of the three distinguished packages, or an
/// external one with its own name.
#[derive(Clone, Debug, PartialEq)]
pub enum PackageName {
    Boots,
    Stdlib,
    Program,
    External(String),
}

/// A package as the front end declares it.
#[derive(Clone, Debug)]
pub struct PackageDecl {
    pub name: PackageName,
    pub root_module_id: u32,
}

/// A module as the front end declares it; the root module has no name.
#[derive(Clone, Debug)]
pub struct ModuleDecl {
    pub name: Option<String>,
}

/// A function as the front end declares it.
#[derive(Clone, Debug)]
pub struct FunctionDecl {
    pub name: String,
}

/// A global variable as the front end declares it.
#[derive(Clone, Debug)]
pub struct GlobalDecl {
    pub module_id: u32,
    pub ty: BytecodeType,
    pub mutable: bool,
    pub name: String,
    pub initializer: Option<u32>,
}

/// A named entity owned by a module: the shape classes, structs, enums and
/// traits share in the emitted program.
#[derive(Clone, Debug)]
pub struct NamedDecl {
    pub module_id: u32,
    pub name: String,
}

/// The front end's tables, as program emission reads them.
#[derive(Clone, Debug)]
pub struct SemAnalysisData {
    pub packages: Vec<PackageDecl>,
    pub modules: Vec<ModuleDecl>,
    pub functions: Vec<FunctionDecl>,
    pub globals: Vec<GlobalDecl>,
    pub classes: Vec<NamedDecl>,
    pub structs: Vec<NamedDecl>,
    pub enums: Vec<NamedDecl>,
    pub traits: Vec<NamedDecl>,
    pub stdlib_package_id: u32,
    pub program_package_id: u32,
    pub boots_package_id: Option<u32>,
}

/// One package of the emitted program.
#[derive(Clone, Debug)]
pub struct PackageData {
    pub name: String,
    pub root_module_id: ModuleId,
}

/// One module of the emitted program.
#[derive(Clone, Debug)]
pub struct ModuleData {
    pub name: String,
}

/// One function of the emitted program.
#[derive(Clone, Debug)]
pub struct FunctionData {
    pub name: String,
}

/// One global variable of the emitted program.
#[derive(Clone, Debug)]
pub struct GlobalData {
    pub module_id: ModuleId,
    pub ty: BytecodeType,
    pub mutable: bool,
    pub name: String,
    pub initializer: Option<FunctionId>,
}

/// One class of the emitted program.
#[derive(Clone, Debug)]
pub struct ClassData {
    pub module_id: ModuleId,
    pub name: String,
}

/// One struct of the emitted program.
#[derive(Clone, Debug)]
pub struct StructData {
    pub module_id: ModuleId,
    pub name: String,
}

/// One enum of the emitted program.
#[derive(Clone, Debug)]
pub struct EnumData {
    pub module_id: ModuleId,
    pub name: String,
}

/// One trait of the emitted program.
#[derive(Clone, Debug)]
pub struct TraitData {
    pub module_id: ModuleId,
    pub name: String,
}

/// The read-only snapshot of the user program the back end consumes.
#[derive(Clone, Debug)]
pub struct Program {
    pub packages: Vec<PackageData>,
    pub modules: Vec<ModuleData>,
    pub functions: Vec<FunctionData>,
    pub globals: Vec<GlobalData>,
    pub classes: Vec<ClassData>,
    pub structs: Vec<StructData>,
    pub enums: Vec<EnumData>,
    pub traits: Vec<TraitData>,
    pub stdlib_package_id: PackageId,
    pub program_package_id: PackageId,
    pub boots_package_id: Option<PackageId>,
}

/// The printed name of a package.
pub open spec fn package_name_text(name: PackageName) -> Seq<char> {
    match name {
        PackageName::Boots => "boots"@,
        PackageName::Stdlib => "stdlib"@,
        PackageName::Program => "program"@,
        PackageName::External(n) => n@,
    }
}

/// The printed name of a module; the root module reads `<root>`.
pub open spec fn module_name_text(name: Option<String>) -> Seq<char> {
    match name {
        Some(n) => n@,
        None => "<root>"@,
    }
}

/// One package per declared package, keeping order, name and root module.
pub fn create_packages(sa: &SemAnalysisData) -> (r: Vec<PackageData>)
    ensures
        r@.len() == sa.packages@.len(),
        forall|i: int|
            0 <= i < r@.len() ==> (#[trigger] r@[i]).name@ == package_name_text(
                sa.packages@[i].name,
            ) && r@[i].root_module_id.0 == sa.packages@[i].root_module_id,
{
    let mut result: Vec<PackageData> = Vec::new();
    let mut i: usize = 0;
    while i < sa.packages.len()
        invariant
            i <= sa.packages@.len(),
            result@.len() == i,
            forall|k: int|
                0 <= k < i ==> (#[trigger] result@[k]).name@ == package_name_text(
                    sa.packages@[k].name,
                ) && result@[k].root_module_id.0 == sa.packages@[k].root_module_id,
        decreases sa.packages@.len() - i,
    {
        let name: String = match &sa.packages[i].name {
            PackageName::Boots => String::from_str("boots"),
            PackageName::Stdlib => String::from_str("stdlib"),
            PackageName::Program => String::from_str("program"),
            PackageName::External(n) => n.clone(),
        };
        result.push(
            PackageData { name, root_module_id: ModuleId(sa.packages[i].root_module_id) },
        );
        i = i + 1;
    }
    result
}

/// One module per declared module, keeping order and name.
pub fn create_modules(sa: &SemAnalysisData) -> (r: Vec<ModuleData>)
    ensures
        r@.len() == sa.modules@.len(),
        forall|i: int|
            0 <= i < r@.len() ==> (#[trigger] r@[i]).name@ == module_name_text(
                sa.modules@[i].name,
            ),
{
    let mut result: Vec<ModuleData> = Vec::new();
    let mut i: usize = 0;
    while i < sa.modules.len()
        invariant
            i <= sa.modules@.len(),
            result@.len() == i,
            forall|k: int|
                0 <= k < i ==> (#[trigger] result@[k]).name@ == module_name_text(
                    sa.modules@[k].name,
                ),
        decreases sa.modules@.len() - i,
    {
        let name: String = match &sa.modules[i].name {
            Some(n) => n.clone(),
            None => String::from_str("<root>"),
        };
        result.push(ModuleData { name });
        i = i + 1;
    }
    result
}

/// One function per declared function, keeping order and name.
pub fn create_functions(sa: &SemAnalysisData) -> (r: Vec<FunctionData>)
    ensures
        r@.len() == sa.functions@.len(),
        forall|i: int|
            0 <= i < r@.len() ==> (#[trigger] r@[i]).name@ == sa.functions@[i].name@,
{
    let mut result: Vec<FunctionData> = Vec::new();
    let mut i: usize = 0;
    while i < sa.functions.len()
        invariant
            i <= sa.functions@.len(),
            result@.len() == i,
            forall|k: int|
                0 <= k < i ==> (#[trigger] result@[k]).name@ == sa.functions@[k].name@,
        decreases sa.functions@.len() - i,
    {
        result.push(FunctionData { name: sa.functions[i].name.clone() });
        i = i + 1;
    }
    result
}

/// One global per declared global, keeping order, name, type, mutability
/// and initializer.
pub fn create_globals(sa: &SemAnalysisData) -> (r: Vec<GlobalData>)
    ensures
        r@.len() == sa.globals@.len(),
        forall|i: int|
            0 <= i < r@.len() ==> {
                &&& (#[trigger] r@[i]).name@ == sa.globals@[i].name@
                &&& r@[i].module_id.0 == sa.globals@[i].module_id
                &&& r@[i].ty@ == sa.globals@[i].ty@
                &&& r@[i].mutable == sa.globals@[i].mutable
                &&& (r@[i].initializer matches Some(f) ==> sa.globals@[i].initializer == Some(f.0))
                &&& (r@[i].initializer is None <==> sa.globals@[i].initializer is None)
            },
{
    let mut result: Vec<GlobalData> = Vec::new();
    let mut i: usize = 0;
    while i < sa.globals.len()
        invariant
            i <= sa.globals@.len(),
            result@.len() == i,
            forall|k: int|
                0 <= k < i ==> {
                    &&& (#[trigger] result@[k]).name@ == sa.globals@[k].name@
                    &&& result@[k].module_id.0 == sa.globals@[k].module_id
                    &&& result@[k].ty@ == sa.globals@[k].ty@
                    &&& result@[k].mutable == sa.globals@[k].mutable
                    &&& (result@[k].initializer matches Some(f) ==> sa.globals@[k].initializer
                        == Some(f.0))
                    &&& (result@[k].initializer is None <==> sa.globals@[k].initializer is None)
                },
        decreases sa.globals@.len() - i,
    {
        let g = &sa.globals[i];
        let initializer = match g.initializer {
            Some(f) => Some(FunctionId(f)),
            None => None,
        };
        result.push(
            GlobalData {
                module_id: ModuleId(g.module_id),
                ty: g.ty.clone(),
                mutable: g.mutable,
                name: g.name.clone(),
                initializer,
            },
        );
        i = i + 1;
    }
    result
}

/// One class per declared class, keeping order, owner and name.
pub fn create_classes(sa: &SemAnalysisData) -> (r: Vec<ClassData>)
    ensures
        r@.len() == sa.classes@.len(),
        forall|i: int|
            0 <= i < r@.len() ==> (#[trigger] r@[i]).name@ == sa.classes@[i].name@
                && r@[i].module_id.0 == sa.classes@[i].module_id,
{
    let mut result: Vec<ClassData> = Vec::new();
    let mut i: usize = 0;
    while i < sa.classes.len()
        invariant
            i <= sa.classes@.len(),
            result@.len() == i,
            forall|k: int|
                0 <= k < i ==> (#[trigger] result@[k]).name@ == sa.classes@[k].name@
                    && result@[k].module_id.0 == sa.classes@[k].module_id,
        decreases sa.classes@.len() - i,
    {
        result.push(
            ClassData {
                module_id: ModuleId(sa.classes[i].module_id),
                name: sa.classes[i].name.clone(),
            },
        );
        i = i + 1;
    }
    result
}

/// One struct per declared struct, keeping order, owner and name.
pub fn create_structs(sa: &SemAnalysisData) -> (r: Vec<StructData>)
    ensures
        r@.len() == sa.structs@.len(),
        forall|i: int|
            0 <= i < r@.len() ==> (#[trigger] r@[i]).name@ == sa.structs@[i].name@
                && r@[i].module_id.0 == sa.structs@[i].module_id,
{
    let mut result: Vec<StructData> = Vec::new();
    let mut i: usize = 0;
    while i < sa.structs.len()
        invariant
            i <= sa.structs@.len(),
            result@.len() == i,
            forall|k: int|
                0 <= k < i ==> (#[trigger] result@[k]).name@ == sa.structs@[k].name@
                    && result@[k].module_id.0 == sa.structs@[k].module_id,
        decreases sa.structs@.len() - i,
    {
        result.push(
            StructData {
                module_id: ModuleId(sa.structs[i].module_id),
                name: sa.structs[i].name.clone(),
            },
        );
        i = i + 1;
    }
    result
}

/// One enum per declared enum, keeping order, owner and name.
pub fn create_enums(sa: &SemAnalysisData) -> (r: Vec<EnumData>)
    ensures
        r@.len() == sa.enums@.len(),
        forall|i: int|
            0 <= i < r@.len() ==> (#[trigger] r@[i]).name@ == sa.enums@[i].name@
                && r@[i].module_id.0 == sa.enums@[i].module_id,
{
    let mut result: Vec<EnumData> = Vec::new();
    let mut i: usize = 0;
    while i < sa.enums.len()
        invariant
            i <= sa.enums@.len(),
            result@.len() == i,
            forall|k: int|
                0 <= k < i ==> (#[trigger] result@[k]).name@ == sa.enums@[k].name@
                    && result@[k].module_id.0 == sa.enums@[k].module_id,
        decreases sa.enums@.len() - i,
    {
        result.push(
            EnumData {
                module_id: ModuleId(sa.enums[i].module_id),
                name: sa.enums[i].name.clone(),
            },
        );
        i = i + 1;
    }
    result
}

/// One trait per declared trait, keeping order, owner and name. The trait
/// table drives this walk.
pub fn create_traits(sa: &SemAnalysisData) -> (r: Vec<TraitData>)
    ensures
        r@.len() == sa.traits@.len(),
        forall|i: int|
            0 <= i < r@.len() ==> (#[trigger] r@[i]).name@ == sa.traits@[i].name@
                && r@[i].module_id.0 == sa.traits@[i].module_id,
{
    let mut result: Vec<TraitData> = Vec::new();
    let mut i: usize = 0;
    while i < sa.traits.len()
        invariant
            i <= sa.traits@.len(),
            result@.len() == i,
            forall|k: int|
                0 <= k < i ==> (#[trigger] result@[k]).name@ == sa.traits@[k].name@
                    && result@[k].module_id.0 == sa.traits@[k].module_id,
        decreases sa.traits@.len() - i,
    {
        result.push(
            TraitData {
                module_id: ModuleId(sa.traits[i].module_id),
                name: sa.traits[i].name.clone(),
            },
        );
        i = i + 1;
    }
    result
}

/// Builds the program snapshot the back end consumes from the front end's
/// tables: every table converted in order, with the three distinguished
/// package ids carried over.
pub fn emit_program(sa: &SemAnalysisData) -> (r: Program)
    ensures
        r.packages@.len() == sa.packages@.len(),
        r.modules@.len() == sa.modules@.len(),
        r.functions@.len() == sa.functions@.len(),
        r.globals@.len() == sa.globals@.len(),
        r.classes@.len() == sa.classes@.len(),
        r.structs@.len() == sa.structs@.len(),
        r.enums@.len() == sa.enums@.len(),
        r.traits@.len() == sa.traits@.len(),
        forall|i: int|
            0 <= i < r.traits@.len() ==> (#[trigger] r.traits@[i]).name@ == sa.traits@[i].name@,
        r.stdlib_package_id.0 == sa.stdlib_package_id,
        r.program_package_id.0 == sa.program_package_id,
        (r.boots_package_id matches Some(p) ==> sa.boots_package_id == Some(p.0)),
        (r.boots_package_id is None <==> sa.boots_package_id is None),
{
    let boots_package_id = match sa.boots_package_id {
        Some(p) => Some(PackageId(p)),
        None => None,
    };
    Program {
        packages: create_packages(sa),
        modules: create_modules(sa),
        functions: create_functions(sa),
        globals: create_globals(sa),
        classes: create_classes(sa),
        structs: create_structs(sa),
        enums: create_enums(sa),
        traits: create_traits(sa),
        stdlib_package_id: PackageId(sa.stdlib_package_id),
        program_package_id: PackageId(sa.program_package_id),
        boots_package_id,
    }
}

} // verus!

use dora::bty::{BytecodeTypeArray, FctDefinitionId};
use dora::cmd::{Args, MemSize};
use dora::code::{Address, CallSite, CallSiteState, CodeId, CodeMap, CompilationDatabase};
use dora::cpu::{rax, rcx, rdx, MachineMode};
use dora::driver::{main_exit_code, test_summary, tests_exit_code};
use dora::masm::{MacroAssembler, Trap};
use dora::position::Position;
use dora::program::{
    emit_program, FunctionDecl, ModuleDecl, NamedDecl, PackageDecl, PackageName, SemAnalysisData,
};
use dora::safepoint::{
    check_all_threads_stopped, resume_threads, stop_threads, thread_reach_safepoint, DoraThread,
    ThreadState,
};

#[test]
fn trap_codes_match_the_protocol() {
    assert_eq!(Trap::DIV0.to_int(), 1);
    assert_eq!(Trap::ASSERT.to_int(), 2);
    assert_eq!(Trap::INDEX_OUT_OF_BOUNDS.to_int(), 3);
    assert_eq!(Trap::NIL.to_int(), 4);
    assert_eq!(Trap::CAST.to_int(), 5);
    assert_eq!(Trap::OOM.to_int(), 6);
    assert_eq!(Trap::STACK_OVERFLOW.to_int(), 7);
    assert_eq!(Trap::ILLEGAL.to_int(), 8);
    assert_eq!(Trap::OVERFLOW.to_int(), 9);
}

#[test]
fn lazy_call_site_enters_thunk_exactly_once() {
    let thunk = Address(0x1000);
    let code = Address(0x2000);
    let mut site = CallSite::new();

    // first call goes through the thunk and patches the site
    let (target, entered) = site.invoke(thunk, code);
    assert_eq!(target, thunk);
    assert!(entered);
    assert_eq!(site.state, CallSiteState::Resolved(code));

    // every further call jumps straight to the compiled code
    for _ in 0..10 {
        let (target, entered) = site.invoke(thunk, code);
        assert_eq!(target, code);
        assert!(!entered);
    }

    // deoptimization forgets the target again
    site.deoptimize();
    let (target, entered) = site.invoke(thunk, code);
    assert_eq!(target, thunk);
    assert!(entered);
}

#[test]
fn code_map_finds_installed_ranges() {
    let mut map = CodeMap::new();
    map.insert(0x1000, 0x2000, CodeId(0));
    map.insert(0x3000, 0x3800, CodeId(1));

    assert_eq!(map.lookup(0x1000), Some(CodeId(0)));
    assert_eq!(map.lookup(0x1fff), Some(CodeId(0)));
    assert_eq!(map.lookup(0x2000), None);
    assert_eq!(map.lookup(0x3400), Some(CodeId(1)));
    assert_eq!(map.lookup(0x4000), None);
}

#[test]
fn compilation_database_remembers_installed_code() {
    let mut db = CompilationDatabase::new();
    let key = FctDefinitionId(7);
    let params = BytecodeTypeArray::empty();
    assert!(db.get(key, &params).is_none());
    db.insert(key, BytecodeTypeArray::empty(), Address(0x4242));
    assert_eq!(db.get(key, &params), Some(Address(0x4242)));
    // a different function is still unknown
    assert!(db.get(FctDefinitionId(8), &params).is_none());
}

#[test]
fn stop_the_world_reaches_a_consistent_stopped_state() {
    // two threads spinning between safepoints, a third one parked
    let mut threads = vec![
        DoraThread { state: ThreadState::Running, safepoint_requested: false },
        DoraThread { state: ThreadState::Running, safepoint_requested: false },
        DoraThread { state: ThreadState::Parked, safepoint_requested: false },
    ];

    stop_threads(&mut threads);
    assert_eq!(threads[0].state, ThreadState::SafepointRequested);
    assert_eq!(threads[1].state, ThreadState::SafepointRequested);
    assert_eq!(threads[2].state, ThreadState::ParkedSafepoint);
    assert!(threads.iter().all(|t| t.safepoint_requested));
    assert!(!check_all_threads_stopped(&threads));

    // the running threads poll their safepoint byte and stop
    let mut t0 = threads[0];
    thread_reach_safepoint(&mut t0);
    threads[0] = t0;
    let mut t1 = threads[1];
    thread_reach_safepoint(&mut t1);
    threads[1] = t1;
    assert!(check_all_threads_stopped(&threads));

    // after the operation every thread is out of the transitional states
    resume_threads(&mut threads);
    for t in &threads {
        assert!(!t.state.in_safepoint());
        assert!(t.state == ThreadState::Running || t.state == ThreadState::Parked);
        assert!(!t.safepoint_requested);
    }
}

#[test]
fn heap_size_defaults_and_clamping() {
    let mut args = Args {
        arg_file: String::new(),
        flag_check: false,
        flag_gc_events: false,
        flag_gc_stress: false,
        flag_gc_parallel_minor: false,
        flag_gc_parallel_full: false,
        flag_gc_parallel: false,
        flag_gc_stats: false,
        flag_gc_verbose: false,
        flag_gc_verify: false,
        flag_gc_worker: 0,
        flag_gc_young_size: None,
        flag_gc_semi_ratio: None,
        flag_gc: None,
        flag_compiler: None,
        flag_min_heap_size: None,
        flag_max_heap_size: None,
        flag_code_size: None,
        flag_perm_size: None,
        flag_disable_tlab: false,
        flag_disable_barrier: false,
        flag_omit_bounds_check: false,
        flag_test_filter: None,
        flag_stdlib: None,
        flag_boots: None,
        flag_clear_regs: false,
        cmd_test: false,
    };
    assert_eq!(args.min_heap_size(), 32 * 1048576);
    assert_eq!(args.max_heap_size(), 128 * 1048576);
    // the minimum never exceeds the maximum
    args.flag_min_heap_size = Some(MemSize(256 * 1048576));
    assert_eq!(args.min_heap_size(), 128 * 1048576);
    // a machine-derived worker count stays in range
    let workers = args.gc_workers();
    assert!(workers >= 1 && workers <= 8);
    assert!(args.young_appel());
}

#[test]
fn exit_codes_follow_the_driver_rules() {
    // fn main() {} exits 0; fn main(): Int32 { 7 } exits 7
    assert_eq!(main_exit_code(true, 7), 0);
    assert_eq!(main_exit_code(false, 7), 7);
    assert_eq!(main_exit_code(false, 0), 0);
    // one failing test: non-zero exit and the summary line
    assert_eq!(test_summary(1, 0), "1 tests executed; 0 passed; 1 failed.");
    assert_eq!(tests_exit_code(1, 0), 1);
    assert_eq!(test_summary(3, 3), "3 tests executed; 3 passed; 0 failed.");
    assert_eq!(tests_exit_code(3, 3), 0);
}

#[test]
fn division_emits_divzero_and_overflow_guards() {

    let mut masm = MacroAssembler::new();
    masm.int_div(
        MachineMode::Int32,
        rax(),
        rax(),
        rcx(),
        Position::new(1, 1),
    );
    // two trap exits: divide-by-zero and MIN / -1 overflow
    assert_eq!(masm.bailouts.len(), 2);
    assert_eq!(masm.bailouts[0].trap, Trap::DIV0);
    assert_eq!(masm.bailouts[1].trap, Trap::OVERFLOW);
    // three pending jumps into the guard paths
    assert_eq!(masm.jumps.len(), 3);

    let mut masm = MacroAssembler::new();
    masm.int_mod(
        MachineMode::Int64,
        rdx(),
        rax(),
        rcx(),
        Position::new(1, 1),
    );
    assert_eq!(masm.bailouts[0].trap, Trap::DIV0);
    assert_eq!(masm.bailouts[1].trap, Trap::OVERFLOW);
}

#[test]
fn epilog_restores_the_frame_pointer() {

    let mut masm = MacroAssembler::new();
    masm.epilog();
    // mov rsp, rbp; pop rbp; ret
    assert_eq!(masm.data(), vec![0x48, 0x89, 0xEC, 0x5D, 0xC3]);
}

#[test]
fn program_emission_walks_every_table() {
    let sa = SemAnalysisData {
        packages: vec![
            PackageDecl { name: PackageName::Stdlib, root_module_id: 0 },
            PackageDecl { name: PackageName::Program, root_module_id: 1 },
        ],
        modules: vec![ModuleDecl { name: None }, ModuleDecl { name: Some("m".into()) }],
        functions: vec![FunctionDecl { name: "main".into() }],
        globals: vec![],
        classes: vec![NamedDecl { module_id: 1, name: "C".into() }],
        structs: vec![],
        enums: vec![NamedDecl { module_id: 1, name: "E".into() }],
        traits: vec![
            NamedDecl { module_id: 1, name: "Shape".into() },
            NamedDecl { module_id: 1, name: "Zero".into() },
        ],
        stdlib_package_id: 0,
        program_package_id: 1,
        boots_package_id: None,
    };
    let program = emit_program(&sa);
    assert_eq!(program.packages[0].name, "stdlib");
    assert_eq!(program.packages[1].name, "program");
    assert_eq!(program.modules[0].name, "<root>");
    assert_eq!(program.modules[1].name, "m");
    // the trait table drives the trait list: both traits appear even though
    // only one enum exists
    assert_eq!(program.traits.len(), 2);
    assert_eq!(program.traits[0].name, "Shape");
    assert_eq!(program.traits[1].name, "Zero");
    assert_eq!(program.enums.len(), 1);
}

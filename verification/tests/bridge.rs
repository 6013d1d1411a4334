use vex_bridge::descriptor::{
    catalogue, descriptor_of, name_of, params_of, ret_of, NativeFn, ParamKind, RetKind,
};
use vex_bridge::handle::AddressHandle;
use vex_bridge::marshal::{coerce_arg, marshal_args, plan_call, ret_to_script};
use vex_bridge::registry::{declared_names, lookup, registry_module_name, ModuleResolver, Resolution};
use vex_bridge::shim::{diagnostic, disposition, ShimClock, ShimDisposition, ShimEntry};
use vex_bridge::value::{NativeReturn, NativeValue, ScriptValue};

// Address handles round-trip losslessly through marshalling.

#[test]
fn address_round_trips_exactly() {
    for v in [0i64, 1, 4096, 0x7fff_fffe, 0x7fff_ffff] {
        let h = AddressHandle::from_signed(v).expect("representable address");
        assert_eq!(h.as_signed(), v);
        assert_eq!(h.raw(), v as usize);
    }
}

#[test]
fn negative_address_is_rejected_before_the_cast() {
    assert!(AddressHandle::from_signed(-1).is_none());
    assert!(AddressHandle::from_signed(i64::MIN).is_none());
}

#[test]
fn address_above_signed_range_is_rejected() {
    assert!(AddressHandle::from_signed(0x8000_0000).is_none());
    assert!(AddressHandle::from_signed(i64::MAX).is_none());
}

// Kind mismatches raise an error naming the expected kind, and no native
// argument sequence is produced for a rejected call.

#[test]
fn fractional_number_fails_integer_coercion() {
    let e = coerce_arg(ParamKind::Int, ScriptValue::NonIntegral, 0).unwrap_err();
    assert_eq!(e.expected, ParamKind::Int);
    assert_eq!(e.got, ScriptValue::NonIntegral);
    assert_eq!(e.expected_phrase(), "an integer");
}

#[test]
fn negative_number_fails_unsigned_coercion() {
    let e = coerce_arg(ParamKind::Unsigned, ScriptValue::Int(-1), 2).unwrap_err();
    assert_eq!(e.expected, ParamKind::Unsigned);
    assert_eq!(e.position, 2);
    assert_eq!(e.expected_phrase(), "an unsigned integer");
}

#[test]
fn number_fails_boolean_coercion() {
    let e = coerce_arg(ParamKind::Boolean, ScriptValue::Int(1), 0).unwrap_err();
    assert_eq!(e.expected, ParamKind::Boolean);
    assert_eq!(e.expected_phrase(), "a boolean");
}

#[test]
fn negative_number_fails_address_coercion() {
    let e = coerce_arg(ParamKind::Address, ScriptValue::Int(-5), 4).unwrap_err();
    assert_eq!(e.expected, ParamKind::Address);
    assert_eq!(e.got, ScriptValue::Int(-5));
    assert_eq!(e.expected_phrase(), "a memory address");
}

#[test]
fn out_of_range_integer_is_not_truncated() {
    let e = coerce_arg(ParamKind::Int, ScriptValue::Int(1 << 40), 0).unwrap_err();
    assert_eq!(e.expected, ParamKind::Int);
    let e = coerce_arg(ParamKind::Unsigned, ScriptValue::Int(1 << 40), 0).unwrap_err();
    assert_eq!(e.expected, ParamKind::Unsigned);
}

#[test]
fn successful_coercions_are_exact() {
    assert_eq!(
        coerce_arg(ParamKind::Int, ScriptValue::Int(-7), 0).unwrap(),
        NativeValue::Int(-7)
    );
    assert_eq!(
        coerce_arg(ParamKind::Unsigned, ScriptValue::Int(4_000_000_000), 0).unwrap(),
        NativeValue::Unsigned(4_000_000_000)
    );
    assert_eq!(
        coerce_arg(ParamKind::Boolean, ScriptValue::Bool(true), 0).unwrap(),
        NativeValue::Bool(true)
    );
    match coerce_arg(ParamKind::Address, ScriptValue::Int(4096), 0).unwrap() {
        NativeValue::Address(h) => assert_eq!(h.raw(), 4096),
        other => panic!("expected an address, got {other:?}"),
    }
}

#[test]
fn marshalling_reports_the_first_bad_position() {
    let params = vec![ParamKind::Int, ParamKind::Boolean, ParamKind::Int];
    let args = vec![
        ScriptValue::Int(1),
        ScriptValue::Int(2),
        ScriptValue::NonIntegral,
    ];
    let e = marshal_args(&params, &args).unwrap_err();
    assert_eq!(e.position, 1);
    assert_eq!(e.expected, ParamKind::Boolean);
    assert_eq!(e.got, ScriptValue::Int(2));
}

#[test]
fn missing_argument_counts_as_undefined_and_fails() {
    let params = vec![ParamKind::Int, ParamKind::Int];
    let args = vec![ScriptValue::Int(3)];
    let e = marshal_args(&params, &args).unwrap_err();
    assert_eq!(e.position, 1);
    assert_eq!(e.got, ScriptValue::Undefined);
}

#[test]
fn rejected_call_produces_no_native_plan() {
    let args = vec![
        ScriptValue::Int(0),
        ScriptValue::Int(0),
        ScriptValue::NonIntegral,
        ScriptValue::Int(10),
    ];
    assert!(plan_call(NativeFn::RectFill, &args).is_err());
}

// Scenario: a successful draw call marshals exactly the given four values,
// in order, and returns no value.

#[test]
fn rect_fill_draw_call_marshals_exactly() {
    let args = vec![
        ScriptValue::Int(0),
        ScriptValue::Int(0),
        ScriptValue::Int(10),
        ScriptValue::Int(10),
    ];
    let plan = plan_call(NativeFn::RectFill, &args).unwrap();
    assert_eq!(plan.target, NativeFn::RectFill);
    assert_eq!(
        plan.args,
        vec![
            NativeValue::Int(0),
            NativeValue::Int(0),
            NativeValue::Int(10),
            NativeValue::Int(10),
        ]
    );
    assert_eq!(ret_of(NativeFn::RectFill), RetKind::Nothing);
    assert_eq!(ret_to_script(&NativeReturn::Unit), None);
}

#[test]
fn return_values_convert_back_exactly() {
    assert_eq!(
        ret_to_script(&NativeReturn::Int(-3)),
        Some(ScriptValue::Int(-3))
    );
    assert_eq!(
        ret_to_script(&NativeReturn::Unsigned(u32::MAX)),
        Some(ScriptValue::Int(u32::MAX as i64))
    );
    assert_eq!(
        ret_to_script(&NativeReturn::Address(0x1000)),
        Some(ScriptValue::Int(0x1000))
    );
}

// The descriptor table: names, kinds, and registry completeness.

#[test]
fn catalogue_names_are_unique() {
    let cat = catalogue();
    for (i, a) in cat.iter().enumerate() {
        for b in cat.iter().skip(i + 1) {
            assert_ne!(name_of(*a), name_of(*b));
        }
    }
}

#[test]
fn every_declared_name_is_invocable() {
    let names = declared_names();
    let cat = catalogue();
    assert_eq!(names.len(), cat.len());
    for (name, f) in names.iter().zip(cat.iter()) {
        let found = lookup(name).expect("declared name must be bound");
        assert_eq!(found, *f);
    }
}

#[test]
fn unknown_name_is_not_exported() {
    assert!(lookup("vexDisplayPenSizeSet").is_none());
    assert!(lookup("").is_none());
}

#[test]
fn copy_rect_descriptor_matches_the_native_signature() {
    let d = descriptor_of(NativeFn::CopyRect);
    assert_eq!(d.name, "vexDisplayCopyRect");
    assert_eq!(
        d.params,
        vec![
            ParamKind::Int,
            ParamKind::Int,
            ParamKind::Int,
            ParamKind::Int,
            ParamKind::Address,
            ParamKind::Int,
        ]
    );
    assert_eq!(d.ret, RetKind::Nothing);
}

#[test]
fn png_read_descriptor_matches_the_native_signature() {
    let d = descriptor_of(NativeFn::PngRead);
    assert_eq!(d.name, "vexImagePngRead");
    assert_eq!(d.params.len(), 5);
    assert_eq!(d.params[0], ParamKind::Address);
    assert_eq!(d.ret, RetKind::Unsigned);
    assert_eq!(params_of(NativeFn::Erase).len(), 0);
}

// The composed resolver: the registry's name is checked first and cannot
// be shadowed by a user script module.

#[test]
fn resolver_prefers_the_registry_name() {
    let shadow = ModuleResolver::new(vec![
        String::from("vex_sdk"),
        String::from("util"),
    ]);
    assert_eq!(shadow.resolve(registry_module_name()), Resolution::Registry);
    assert_eq!(shadow.resolve("util"), Resolution::Script);
    assert_eq!(shadow.resolve("missing"), Resolution::Unresolved);
}

#[test]
fn scripts_can_be_registered_incrementally() {
    let mut r = ModuleResolver::new(Vec::new());
    assert_eq!(r.resolve("helper"), Resolution::Unresolved);
    r.add_script(String::from("helper"));
    assert_eq!(r.resolve("helper"), Resolution::Script);
    r.add_script(String::from("vex_sdk"));
    assert_eq!(r.resolve("vex_sdk"), Resolution::Registry);
}

// The runtime shim layer: backed entries, deterministic fatal stubs, and
// the monotonic clock.

#[test]
fn exactly_two_entries_are_backed() {
    let entries = [
        ShimEntry::IsATty,
        ShimEntry::Write,
        ShimEntry::Open,
        ShimEntry::LSeek,
        ShimEntry::Close,
        ShimEntry::FStat,
        ShimEntry::GetPid,
        ShimEntry::Kill,
        ShimEntry::TimeOfDay,
        ShimEntry::Sbrk,
        ShimEntry::Read,
        ShimEntry::Exit,
    ];
    let mut backed = 0;
    for e in entries {
        if disposition(e) == ShimDisposition::Backed {
            backed += 1;
        }
    }
    assert_eq!(backed, 2);
    assert_eq!(disposition(ShimEntry::Write), ShimDisposition::Backed);
    assert_eq!(disposition(ShimEntry::TimeOfDay), ShimDisposition::Backed);
}

#[test]
fn stub_diagnostics_are_fixed_one_word_names() {
    assert_eq!(diagnostic(ShimEntry::IsATty), "isatty");
    assert_eq!(diagnostic(ShimEntry::LSeek), "lseek");
    assert_eq!(diagnostic(ShimEntry::Close), "close");
    assert_eq!(diagnostic(ShimEntry::FStat), "fstat");
    assert_eq!(diagnostic(ShimEntry::GetPid), "getpid");
    assert_eq!(diagnostic(ShimEntry::Kill), "kill");
    assert_eq!(diagnostic(ShimEntry::Sbrk), "sbrk");
    assert_eq!(diagnostic(ShimEntry::Read), "read");
    assert_eq!(diagnostic(ShimEntry::Exit), "exit");
}

// Scenario: a runtime that requests heap growth hits an unsupported entry
// point; the decision is always the same fatal stop with the same word.

#[test]
fn heap_growth_is_a_deterministic_fatal_stub() {
    assert_eq!(disposition(ShimEntry::Sbrk), ShimDisposition::Unsupported);
    assert_eq!(diagnostic(ShimEntry::Sbrk), "sbrk");
    // asking again changes nothing
    assert_eq!(disposition(ShimEntry::Sbrk), ShimDisposition::Unsupported);
    assert_eq!(diagnostic(ShimEntry::Sbrk), "sbrk");
}

#[test]
fn first_time_query_reads_zero_elapsed() {
    let mut clock = ShimClock::new();
    let a = clock.query(987_654_321, false);
    assert_eq!(a.tv.tv_sec, 0);
    assert_eq!(a.tv.tv_usec, 0);
    assert!(!a.timezone_fatal);
}

#[test]
fn successive_time_queries_do_not_decrease() {
    let mut clock = ShimClock::new();
    let a = clock.query(1_000, false);
    let b = clock.query(1_000 + 2_500_000, false);
    let c = clock.query(1_000 + 2_500_000, false);
    assert_eq!((a.tv.tv_sec, a.tv.tv_usec), (0, 0));
    assert_eq!((b.tv.tv_sec, b.tv.tv_usec), (2, 500_000));
    assert_eq!((c.tv.tv_sec, c.tv.tv_usec), (2, 500_000));
    assert!((a.tv.tv_sec, a.tv.tv_usec) <= (b.tv.tv_sec, b.tv.tv_usec));
    assert!((b.tv.tv_sec, b.tv.tv_usec) <= (c.tv.tv_sec, c.tv.tv_usec));
}

#[test]
fn timezone_request_is_fatal() {
    let mut clock = ShimClock::new();
    let a = clock.query(5, true);
    assert!(a.timezone_fatal);
    assert_eq!(diagnostic(ShimEntry::TimeOfDay), "gettimeofday");
}

use crane::ast::{
    Ident, Span, TyExpr, TyExprKind, TyFn, TyFnParam, TyIntegerLiteral, TyItem, TyItemKind,
    TyLiteral, TyLiteralKind, TyStmt, TyStmtKind, TyUint,
};
use crane::backend::error::CompileError;
use crane::backend::module::{Function, Global, Inst, Linkage, MachineType, Module, Value};
use crane::backend::native::{
    declared_names, machine_params, machine_type, param_index, Lowering, NativeBackend,
};
use crane::typer::Type;
use smol_str::SmolStr;
use thin_vec::ThinVec;

fn span() -> Span {
    Span { start: 0, end: 0 }
}

fn ident(name: &str) -> Ident {
    Ident { name: name.to_string(), span: span() }
}

fn prelude_type(name: &str) -> Type {
    Type::UserDefined { module: "std::prelude".to_string(), name: name.to_string() }
}

fn string(lexeme: &str) -> TyExpr {
    TyExpr {
        kind: TyExprKind::Literal(TyLiteral {
            kind: TyLiteralKind::String(SmolStr::new(lexeme)),
            span: span(),
        }),
        span: span(),
    }
}

fn integer(value: u128) -> TyExpr {
    TyExpr {
        kind: TyExprKind::Literal(TyLiteral {
            kind: TyLiteralKind::Integer(TyIntegerLiteral::Unsigned(value, TyUint::Uint64)),
            span: span(),
        }),
        span: span(),
    }
}

fn variable(name: &str) -> TyExpr {
    TyExpr { kind: TyExprKind::Variable { name: ident(name) }, span: span() }
}

fn call(name: &str, args: Vec<TyExpr>) -> TyExpr {
    TyExpr { kind: TyExprKind::Call { fun: Box::new(variable(name)), args }, span: span() }
}

fn params(list: Vec<(&str, Type)>) -> ThinVec<TyFnParam> {
    let mut params = ThinVec::new();
    for (name, ty) in list {
        params.push(TyFnParam { name: ident(name), ty, span: span() });
    }
    params
}

fn function(name: &str, list: Vec<(&str, Type)>, body: Vec<TyExpr>) -> TyItem {
    let body = body.into_iter().map(|expr| TyStmt { kind: TyStmtKind::Expr(expr), span: span() });
    TyItem {
        name: ident(name),
        kind: TyItemKind::Fn(Box::new(TyFn { params: params(list), body: body.collect() })),
    }
}

fn compile(program: Vec<TyItem>) -> Result<Module, CompileError> {
    NativeBackend::new().compile(program)
}

fn body_of(function: &Function) -> &Vec<Inst> {
    function.body.as_ref().expect("the function has a body")
}

fn zero_exit() -> Inst {
    Inst::Return { value: Some(Value::ConstInt { ty: MachineType::Int32, value: 0 }) }
}

fn string_global(text: &[u8]) -> Global {
    let mut bytes = text.to_vec();
    bytes.push(0);
    Global { name: "string_lit".to_string(), bytes, linkage: Linkage::Internal, constant: true }
}

#[test]
fn prelude_holds_the_seven_functions_in_order() {
    let module = Module::prelude();
    let names: Vec<&str> = module.functions.iter().map(|f| f.name.as_str()).collect();
    assert_eq!(
        names,
        vec!["puts", "sprintf", "printf", "print", "println", "int_add", "int_to_string"]
    );
}

#[test]
fn prelude_binds_the_c_runtime() {
    let module = Module::prelude();
    let puts = &module.functions[0];
    assert_eq!(puts.params, vec![MachineType::BytePtr]);
    assert!(!puts.variadic);
    assert_eq!(puts.ret, Some(MachineType::Int32));
    assert_eq!(puts.linkage, Linkage::External);
    assert_eq!(puts.body, None);
    let sprintf = &module.functions[1];
    assert_eq!(sprintf.params, vec![MachineType::BytePtr, MachineType::BytePtr]);
    assert!(sprintf.variadic);
    assert_eq!(sprintf.ret, Some(MachineType::Int32));
    assert_eq!(sprintf.linkage, Linkage::External);
    assert_eq!(sprintf.body, None);
    let printf = &module.functions[2];
    assert_eq!(printf.params, vec![MachineType::BytePtr]);
    assert!(printf.variadic);
    assert_eq!(printf.ret, Some(MachineType::Int32));
    assert_eq!(printf.linkage, Linkage::External);
    assert_eq!(printf.body, None);
}

#[test]
fn prelude_print_formats_through_printf() {
    let module = Module::prelude();
    let print = &module.functions[3];
    assert_eq!(print.params, vec![MachineType::BytePtr]);
    assert_eq!(print.ret, None);
    assert_eq!(print.linkage, Linkage::Default);
    assert_eq!(
        body_of(print),
        &vec![
            Inst::Call { callee: 2, args: vec![Value::Global(0), Value::Param(0)] },
            Inst::Return { value: None },
        ]
    );
    assert_eq!(module.globals[0].name, "print_template");
    assert_eq!(module.globals[0].bytes, b"%1$s\0".to_vec());
    assert_eq!(module.globals[0].linkage, Linkage::Internal);
    assert!(module.globals[0].constant);
}

#[test]
fn prelude_println_forwards_to_puts() {
    let module = Module::prelude();
    let println = &module.functions[4];
    assert_eq!(println.params, vec![MachineType::BytePtr]);
    assert_eq!(println.ret, None);
    assert_eq!(
        body_of(println),
        &vec![
            Inst::Call { callee: 0, args: vec![Value::Param(0)] },
            Inst::Return { value: None },
        ]
    );
}

#[test]
fn prelude_int_add_is_one_addition() {
    let module = Module::prelude();
    let int_add = &module.functions[5];
    assert_eq!(int_add.params, vec![MachineType::Int64, MachineType::Int64]);
    assert_eq!(int_add.ret, Some(MachineType::Int64));
    assert_eq!(
        body_of(int_add),
        &vec![
            Inst::IntAdd { lhs: Value::Param(0), rhs: Value::Param(1) },
            Inst::Return { value: Some(Value::Inst(0)) },
        ]
    );
}

#[test]
fn prelude_int_to_string_formats_into_a_buffer() {
    let module = Module::prelude();
    let int_to_string = &module.functions[6];
    assert_eq!(int_to_string.params, vec![MachineType::Int64]);
    assert_eq!(int_to_string.ret, Some(MachineType::BytePtr));
    assert_eq!(
        body_of(int_to_string),
        &vec![
            Inst::Malloc { ty: MachineType::BytePtr },
            Inst::Call {
                callee: 1,
                args: vec![Value::Inst(0), Value::Global(1), Value::Param(0)],
            },
            Inst::Return { value: Some(Value::Inst(0)) },
        ]
    );
    assert_eq!(module.globals[1].name, "int_to_string_template");
    assert_eq!(module.globals[1].bytes, b"%1$d\0".to_vec());
    assert_eq!(module.globals.len(), 2);
}

#[test]
fn empty_program_compiles_to_the_prelude() {
    assert_eq!(compile(Vec::new()), Ok(Module::prelude()));
}

#[test]
fn every_program_starts_with_the_prelude() {
    let program = vec![function("main", vec![], vec![string("\"unused\"")])];
    let module = compile(program).unwrap();
    let prelude = Module::prelude();
    assert_eq!(module.functions[..7], prelude.functions[..]);
    assert_eq!(module.globals[..2], prelude.globals[..]);
    assert_eq!(module.functions.len(), 8);
}

#[test]
fn compiling_twice_gives_the_same_module() {
    let program = || {
        vec![
            function("main", vec![], vec![call("greet", vec![string("\"hi\"")])]),
            function("greet", vec![("who", prelude_type("String"))], vec![call(
                "println",
                vec![variable("who")],
            )]),
        ]
    };
    assert_eq!(compile(program()), compile(program()));
}

#[test]
fn places_in_the_source_do_not_change_the_module() {
    let program = vec![function("main", vec![], vec![call("println", vec![string("\"hi\"")])])];
    let moved = TyItem {
        name: Ident { name: "main".to_string(), span: Span { start: 40, end: 44 } },
        kind: TyItemKind::Fn(Box::new(TyFn {
            params: ThinVec::new(),
            body: vec![TyStmt {
                kind: TyStmtKind::Expr(TyExpr {
                    kind: TyExprKind::Call {
                        fun: Box::new(TyExpr {
                            kind: TyExprKind::Variable {
                                name: Ident {
                                    name: "println".to_string(),
                                    span: Span { start: 50, end: 57 },
                                },
                            },
                            span: Span { start: 50, end: 57 },
                        }),
                        args: vec![TyExpr {
                            kind: TyExprKind::Literal(TyLiteral {
                                kind: TyLiteralKind::String(SmolStr::new("\"hi\"")),
                                span: Span { start: 58, end: 62 },
                            }),
                            span: Span { start: 58, end: 62 },
                        }],
                    },
                    span: Span { start: 50, end: 63 },
                }),
                span: Span { start: 50, end: 64 },
            }],
        })),
    };
    assert_eq!(compile(program), compile(vec![moved]));
}

#[test]
fn hello_world_lowers_to_one_call_and_a_zero_exit() {
    let program = vec![function("main", vec![], vec![call("println", vec![string("\"hello\"")])])];
    let module = compile(program).unwrap();
    let main = &module.functions[7];
    assert_eq!(main.name, "main");
    assert_eq!(main.params, Vec::<MachineType>::new());
    assert_eq!(main.ret, Some(MachineType::Int32));
    assert_eq!(main.linkage, Linkage::Default);
    assert!(!main.variadic);
    assert_eq!(
        body_of(main),
        &vec![Inst::Call { callee: 4, args: vec![Value::Global(2)] }, zero_exit()]
    );
    assert_eq!(module.globals[2], string_global(b"hello"));
}

#[test]
fn arithmetic_lowers_to_nested_calls() {
    let sum = call("int_add", vec![integer(1), integer(2)]);
    let text = call("int_to_string", vec![sum]);
    let program = vec![function("main", vec![], vec![call("println", vec![text])])];
    let module = compile(program).unwrap();
    assert_eq!(
        body_of(&module.functions[7]),
        &vec![
            Inst::Call {
                callee: 5,
                args: vec![
                    Value::ConstInt { ty: MachineType::Int64, value: 1 },
                    Value::ConstInt { ty: MachineType::Int64, value: 2 },
                ],
            },
            Inst::Call { callee: 6, args: vec![Value::Inst(0)] },
            Inst::Call { callee: 4, args: vec![Value::Inst(1)] },
            zero_exit(),
        ]
    );
    assert_eq!(module.globals.len(), 2);
}

#[test]
fn string_literal_is_unquoted_and_terminated() {
    let start = Lowering { module: Module::prelude(), body: Vec::new() };
    let (after, index) = NativeBackend::compile_string_literal(start, &SmolStr::new("\"hi\""));
    assert_eq!(index, 2);
    assert_eq!(after.module.globals[2].bytes, vec![b'h', b'i', 0]);
    assert_eq!(after.module.globals[2].bytes.len(), 3);
    assert_eq!(after.module.globals[2], string_global(b"hi"));
    assert_eq!(after.module.functions, Module::prelude().functions);
    assert!(after.body.is_empty());
}

#[test]
fn string_literal_loses_its_first_and_last_character_whatever_they_are() {
    let bytes_of = |lexeme: &str| {
        let start = Lowering { module: Module::prelude(), body: Vec::new() };
        let (after, _) = NativeBackend::compile_string_literal(start, &SmolStr::new(lexeme));
        after.module.globals[2].bytes.clone()
    };
    assert_eq!(bytes_of(""), vec![0]);
    assert_eq!(bytes_of("\""), vec![0]);
    assert_eq!(bytes_of("\"\""), vec![0]);
    assert_eq!(bytes_of("abc"), vec![b'b', 0]);
    assert_eq!(bytes_of("\"a b\""), vec![b'a', b' ', b'b', 0]);
    assert_eq!(bytes_of("«é»"), vec![0xc3, 0xa9, 0]);
    assert_eq!(bytes_of("\"a\0b\""), vec![b'a', 0, b'b', 0]);
}

#[test]
fn equal_string_literals_make_two_globals() {
    let program =
        vec![function("main", vec![], vec![call("print", vec![string("\"a\"")]), call(
            "print",
            vec![string("\"a\"")],
        )])];
    let module = compile(program).unwrap();
    assert_eq!(module.globals.len(), 4);
    assert_eq!(module.globals[2], string_global(b"a"));
    assert_eq!(module.globals[3], string_global(b"a"));
    assert_eq!(
        body_of(&module.functions[7]),
        &vec![
            Inst::Call { callee: 3, args: vec![Value::Global(2)] },
            Inst::Call { callee: 3, args: vec![Value::Global(3)] },
            zero_exit(),
        ]
    );
}

#[test]
fn string_literal_statement_makes_a_global_and_no_instruction() {
    let program = vec![function("f", vec![], vec![string("\"x\""), integer(7)])];
    let module = compile(program).unwrap();
    assert_eq!(module.globals[2], string_global(b"x"));
    assert_eq!(body_of(&module.functions[7]), &vec![Inst::Return { value: None }]);
}

#[test]
fn integer_literal_is_a_64_bit_immediate() {
    let literal = TyIntegerLiteral::Unsigned(42, TyUint::Uint64);
    assert_eq!(
        NativeBackend::compile_integer_literal(&literal),
        Value::ConstInt { ty: MachineType::Int64, value: 42 }
    );
    let largest = TyIntegerLiteral::Unsigned(u64::MAX as u128, TyUint::Uint64);
    assert_eq!(
        NativeBackend::compile_integer_literal(&largest),
        Value::ConstInt { ty: MachineType::Int64, value: u64::MAX }
    );
}

#[test]
fn integer_literal_is_reduced_to_64_bits() {
    let literal = TyIntegerLiteral::Unsigned((1u128 << 64) + 5, TyUint::Uint64);
    assert_eq!(
        NativeBackend::compile_integer_literal(&literal),
        Value::ConstInt { ty: MachineType::Int64, value: 5 }
    );
}

#[test]
fn parameters_map_to_machine_types_in_declared_order() {
    let list = params(vec![
        ("text", prelude_type("String")),
        ("count", prelude_type("Uint64")),
        ("more", prelude_type("String")),
    ]);
    assert_eq!(
        machine_params(&list),
        Ok(vec![MachineType::BytePtr, MachineType::Int64, MachineType::BytePtr])
    );
    assert_eq!(declared_names(&list), vec!["text", "count", "more"]);
    assert_eq!(machine_params(&ThinVec::new()), Ok(vec![]));
}

#[test]
fn function_signature_follows_its_parameters() {
    let program = vec![function(
        "show",
        vec![("count", prelude_type("Uint64")), ("text", prelude_type("String"))],
        vec![],
    )];
    let module = compile(program).unwrap();
    let show = &module.functions[7];
    assert_eq!(show.name, "show");
    assert_eq!(show.params, vec![MachineType::Int64, MachineType::BytePtr]);
    assert_eq!(show.param_names, vec!["count", "text"]);
    assert_eq!(show.ret, None);
    assert_eq!(body_of(show), &vec![Inst::Return { value: None }]);
}

#[test]
fn machine_type_of_the_two_prelude_types() {
    assert_eq!(machine_type(&prelude_type("String")), Ok(MachineType::BytePtr));
    assert_eq!(machine_type(&prelude_type("Uint64")), Ok(MachineType::Int64));
}

#[test]
fn unknown_type_is_refused_with_its_name() {
    let unknown = CompileError::UnknownType {
        module: "std::prelude".to_string(),
        name: "Bool".to_string(),
    };
    assert_eq!(machine_type(&prelude_type("Bool")), Err(unknown));
    let elsewhere = Type::UserDefined { module: "app".to_string(), name: "String".to_string() };
    assert_eq!(
        machine_type(&elsewhere),
        Err(CompileError::UnknownType { module: "app".to_string(), name: "String".to_string() })
    );
}

#[test]
fn function_typed_parameter_is_refused() {
    let ty = Type::Fn { args: vec![], return_ty: Box::new(prelude_type("String")) };
    assert_eq!(machine_type(&ty), Err(CompileError::UnsupportedParamType));
    let program = vec![function("apply", vec![("f", ty)], vec![])];
    assert_eq!(compile(program), Err(CompileError::UnsupportedParamType));
}

#[test]
fn first_unsupported_parameter_decides_the_failure() {
    let list = params(vec![
        ("a", prelude_type("String")),
        ("b", prelude_type("Float")),
        ("c", Type::Fn { args: vec![], return_ty: Box::new(prelude_type("String")) }),
    ]);
    assert_eq!(
        machine_params(&list),
        Err(CompileError::UnknownType {
            module: "std::prelude".to_string(),
            name: "Float".to_string(),
        })
    );
}

#[test]
fn main_returns_zero_and_nothing_else_returns_a_value() {
    let program = vec![
        function("main", vec![], vec![]),
        function("helper", vec![], vec![]),
        function("mainly", vec![], vec![]),
    ];
    let module = compile(program).unwrap();
    for function in &module.functions[7..] {
        let body = body_of(function);
        if function.name == "main" {
            assert_eq!(function.ret, Some(MachineType::Int32));
            assert_eq!(body.last(), Some(&zero_exit()));
        } else {
            assert_eq!(function.ret, None);
            assert_eq!(body.last(), Some(&Inst::Return { value: None }));
        }
        let returns = body.iter().filter(|inst| matches!(inst, Inst::Return { .. })).count();
        assert_eq!(returns, 1);
    }
    assert_eq!(module.functions[9].name, "main");
}

#[test]
fn unresolved_call_names_the_missing_function() {
    let program = vec![function("main", vec![], vec![call("missing", vec![])])];
    let error = compile(program).unwrap_err();
    assert_eq!(error, CompileError::FunctionNotFound { name: "missing".to_string() });
    assert!(error.is_recoverable());
    assert_eq!(error.diagnostic(), Some("Function 'missing' not found.".to_string()));
}

#[test]
fn unresolved_callee_is_found_before_its_arguments_are_lowered() {
    let program = vec![function("main", vec![], vec![call("missing", vec![variable("nobody")])])];
    assert_eq!(
        compile(program),
        Err(CompileError::FunctionNotFound { name: "missing".to_string() })
    );
}

#[test]
fn unresolved_nested_call_fails_the_whole_program() {
    let program = vec![
        function("main", vec![], vec![call("println", vec![call("missing", vec![])])]),
        function("fine", vec![], vec![]),
    ];
    assert_eq!(
        compile(program),
        Err(CompileError::FunctionNotFound { name: "missing".to_string() })
    );
}

#[test]
fn function_declared_later_can_be_called() {
    let program = vec![
        function("first", vec![], vec![call("second", vec![])]),
        function("second", vec![], vec![]),
    ];
    let module = compile(program).unwrap();
    assert_eq!(module.functions[7].name, "second");
    assert_eq!(module.functions[8].name, "first");
    assert_eq!(
        body_of(&module.functions[8]),
        &vec![Inst::Call { callee: 7, args: vec![] }, Inst::Return { value: None }]
    );
}

#[test]
fn function_declared_earlier_cannot_be_called() {
    let program = vec![
        function("first", vec![], vec![]),
        function("second", vec![], vec![call("first", vec![])]),
    ];
    assert_eq!(compile(program), Err(CompileError::FunctionNotFound { name: "first".to_string() }));
}

#[test]
fn mutual_recursion_fails_on_the_function_declared_first() {
    let program = vec![
        function("ping", vec![], vec![call("pong", vec![])]),
        function("pong", vec![], vec![call("ping", vec![])]),
    ];
    assert_eq!(compile(program), Err(CompileError::FunctionNotFound { name: "ping".to_string() }));
}

#[test]
fn function_can_call_itself() {
    let program = vec![function("spin", vec![], vec![call("spin", vec![])])];
    let module = compile(program).unwrap();
    assert_eq!(
        body_of(&module.functions[7]),
        &vec![Inst::Call { callee: 7, args: vec![] }, Inst::Return { value: None }]
    );
}

#[test]
fn later_function_of_a_name_shadows_the_earlier() {
    let program = vec![
        function("main", vec![], vec![call("println", vec![string("\"x\"")])]),
        function("println", vec![("text", prelude_type("String"))], vec![]),
    ];
    let module = compile(program).unwrap();
    assert_eq!(module.functions[7].name, "println");
    assert_eq!(module.find_function(&"println".to_string()), Some(7));
    assert_eq!(
        body_of(&module.functions[8]),
        &vec![Inst::Call { callee: 7, args: vec![Value::Global(2)] }, zero_exit()]
    );
}

#[test]
fn find_function_finds_names_of_the_prelude_only() {
    let module = Module::prelude();
    assert_eq!(module.find_function(&"puts".to_string()), Some(0));
    assert_eq!(module.find_function(&"int_to_string".to_string()), Some(6));
    assert_eq!(module.find_function(&"main".to_string()), None);
    assert_eq!(module.find_function(&"".to_string()), None);
}

#[test]
fn variable_resolves_to_the_first_parameter_of_its_name() {
    let list = params(vec![
        ("a", prelude_type("String")),
        ("b", prelude_type("Uint64")),
        ("b", prelude_type("String")),
    ]);
    assert_eq!(param_index(&list, &"a".to_string()), Some(0));
    assert_eq!(param_index(&list, &"b".to_string()), Some(1));
    assert_eq!(param_index(&list, &"c".to_string()), None);
}

#[test]
fn parameter_is_passed_on_by_its_index() {
    let program = vec![function(
        "shout",
        vec![("count", prelude_type("Uint64")), ("text", prelude_type("String"))],
        vec![call("println", vec![variable("text")])],
    )];
    let module = compile(program).unwrap();
    assert_eq!(
        body_of(&module.functions[7]),
        &vec![
            Inst::Call { callee: 4, args: vec![Value::Param(1)] },
            Inst::Return { value: None },
        ]
    );
}

#[test]
fn unknown_variable_is_refused_with_its_name() {
    let program = vec![function("main", vec![], vec![call("println", vec![variable("text")])])];
    let error = compile(program).unwrap_err();
    assert_eq!(error, CompileError::ParamNotFound { name: "text".to_string() });
    assert!(!error.is_recoverable());
    assert_eq!(error.diagnostic(), None);
    let statement = vec![function("main", vec![], vec![variable("text")])];
    assert_eq!(compile(statement), Err(CompileError::ParamNotFound { name: "text".to_string() }));
}

#[test]
fn nested_item_is_refused() {
    let nested = function("inner", vec![], vec![]);
    let outer = TyItem {
        name: ident("outer"),
        kind: TyItemKind::Fn(Box::new(TyFn {
            params: ThinVec::new(),
            body: vec![TyStmt { kind: TyStmtKind::Item(nested), span: span() }],
        })),
    };
    assert_eq!(compile(vec![outer]), Err(CompileError::UnsupportedStatement));
}

#[test]
fn computed_callee_is_refused() {
    let computed = TyExpr {
        kind: TyExprKind::Call { fun: Box::new(call("println", vec![])), args: vec![] },
        span: span(),
    };
    let program = vec![function("main", vec![], vec![computed])];
    assert_eq!(compile(program), Err(CompileError::UnsupportedCallee));
}

#[test]
fn call_without_a_value_cannot_be_an_argument() {
    let program =
        vec![function("main", vec![], vec![call("println", vec![call("print", vec![string(
            "\"x\"",
        )])])])];
    assert_eq!(compile(program), Err(CompileError::VoidArgument { callee: "print".to_string() }));
}

#[test]
fn type_declarations_are_not_lowered() {
    let program = vec![
        TyItem { name: ident("Point"), kind: TyItemKind::Struct },
        function("main", vec![], vec![]),
        TyItem { name: ident("Shape"), kind: TyItemKind::Union },
    ];
    let module = compile(program).unwrap();
    assert_eq!(module.functions.len(), 8);
    assert_eq!(module.functions[7].name, "main");
}

#[test]
fn first_failure_in_lowering_order_is_reported() {
    let program = vec![
        function("a", vec![], vec![call("nowhere", vec![])]),
        function("b", vec![("x", prelude_type("Bool"))], vec![]),
    ];
    assert_eq!(
        compile(program),
        Err(CompileError::UnknownType {
            module: "std::prelude".to_string(),
            name: "Bool".to_string(),
        })
    );
}

#[test]
fn verified_function_may_be_optimized() {
    assert_eq!(NativeBackend::verify_fn("main", true), Ok(()));
}

#[test]
fn unverified_function_ends_the_compilation() {
    assert_eq!(NativeBackend::verify_fn("main", false), Err("`main` not verified".to_string()));
    assert_eq!(NativeBackend::verify_fn("", false), Err("`` not verified".to_string()));
}

#[test]
fn every_operand_of_a_compiled_module_exists() {
    let sum = call("int_add", vec![variable("n"), integer(1)]);
    let program = vec![
        function("main", vec![], vec![call("show", vec![integer(41)])]),
        function("show", vec![("n", prelude_type("Uint64"))], vec![call("println", vec![call(
            "int_to_string",
            vec![sum],
        )])]),
    ];
    let module = compile(program).unwrap();
    for function in &module.functions {
        let Some(body) = &function.body else { continue };
        for (index, inst) in body.iter().enumerate() {
            let operands: Vec<Value> = match inst {
                Inst::Call { callee, args } => {
                    assert!(*callee < module.functions.len());
                    args.clone()
                }
                Inst::IntAdd { lhs, rhs } => vec![*lhs, *rhs],
                Inst::Malloc { .. } => vec![],
                Inst::Return { value } => value.iter().copied().collect(),
            };
            for operand in operands {
                match operand {
                    Value::Param(i) => assert!(i < function.params.len()),
                    Value::Global(i) => assert!(i < module.globals.len()),
                    Value::Inst(i) => assert!(i < index),
                    Value::ConstInt { .. } => {}
                }
            }
        }
    }
}

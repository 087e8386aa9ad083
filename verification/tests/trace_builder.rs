use bberg::circuit::{check_circuit, get_circuit_subgroup_size, get_num_gates};
use bberg::emitter::{num_cols, num_polys, trace_builder_hpp};
use bberg::includes::{trace_cpp_includes, trace_hpp_includes};
use bberg::members::{assignment_block, assignment_lines, join_lines, shift_block, shift_lines};
use bberg::numerals::decimal_string;
use bberg::{ModuleEmitter, TraceBuilder};

fn cols(names: &[&str]) -> Vec<String> {
    names.iter().map(|n| n.to_string()).collect()
}

#[test]
fn assignment_block_lines_in_schema_order() {
    let all = cols(&["a", "b"]);
    let lines = assignment_lines(&all);
    assert_eq!(lines.len(), 2);
    assert_eq!(lines[0], "polys.a[i] = rows[i].a;");
    assert_eq!(lines[1], "polys.b[i] = rows[i].b;");
    assert_eq!(
        assignment_block(&all),
        "polys.a[i] = rows[i].a;\npolys.b[i] = rows[i].b;"
    );
}

#[test]
fn shift_block_lines_in_shift_order() {
    let shifted = cols(&["b"]);
    let lines = shift_lines(&shifted);
    assert_eq!(lines.len(), 1);
    assert_eq!(lines[0], "polys.b_shift = Polynomial(polys.b.shifted());");
    assert_eq!(
        shift_block(&shifted),
        "polys.b_shift = Polynomial(polys.b.shifted());"
    );
}

#[test]
fn shift_block_keeps_its_own_order_not_all_cols_order() {
    let shifted = cols(&["c", "a"]);
    let lines = shift_lines(&shifted);
    assert_eq!(lines.len(), 2);
    assert_eq!(lines[0], "polys.c_shift = Polynomial(polys.c.shifted());");
    assert_eq!(lines[1], "polys.a_shift = Polynomial(polys.a.shifted());");
}

#[test]
fn block_line_counts_match_schema_lengths() {
    let all = cols(&["pc", "op", "flag", "acc"]);
    let shifted = cols(&["pc", "acc"]);
    assert_eq!(assignment_lines(&all).len(), 4);
    assert_eq!(shift_lines(&shifted).len(), 2);
}

#[test]
fn derived_counts_double_count_shifted_columns() {
    let all = cols(&["a", "b"]);
    let shifted = cols(&["b"]);
    assert_eq!(num_polys(&all), 2);
    assert_eq!(num_cols(&all, &shifted), 3);
    assert_eq!(num_cols(&cols(&[]), &cols(&[])), 0);
}

#[test]
fn join_lines_uses_single_newlines_and_no_tail() {
    assert_eq!(join_lines(&vec![]), "");
    assert_eq!(join_lines(&cols(&["one"])), "one");
    assert_eq!(join_lines(&cols(&["one", "two", "three"])), "one\ntwo\nthree");
}

#[test]
fn decimal_rendering_exact() {
    assert_eq!(decimal_string(0), "0");
    assert_eq!(decimal_string(7), "7");
    assert_eq!(decimal_string(10), "10");
    assert_eq!(decimal_string(1234), "1234");
}

#[test]
fn subgroup_size_examples() {
    assert_eq!(get_circuit_subgroup_size(5), 8);
    assert_eq!(get_circuit_subgroup_size(8), 8);
    assert_eq!(get_circuit_subgroup_size(9), 16);
}

#[test]
fn subgroup_size_zero_rows_gets_one_element_domain() {
    assert_eq!(get_circuit_subgroup_size(0), 1);
}

#[test]
fn subgroup_size_is_least_power_of_two_bound() {
    for r in 1usize..=300 {
        let p = get_circuit_subgroup_size(r);
        assert!(p.is_power_of_two(), "{p} for {r}");
        assert!(p >= r, "{p} for {r}");
        assert!(p / 2 < r, "{p} for {r}");
    }
}

#[test]
fn num_gates_echoes_recorded_rows() {
    assert_eq!(get_num_gates(&vec![]), 0);
    assert_eq!(get_num_gates(&vec![vec![0], vec![1]]), 2);
}

#[test]
fn check_circuit_zero_rows_succeeds() {
    assert!(check_circuit("avm", &vec![]).is_ok());
}

#[test]
fn check_circuit_all_zero_succeeds() {
    let evals = vec![vec![0, 0, 0], vec![0, 0, 0]];
    assert!(check_circuit("avm", &evals).is_ok());
}

#[test]
fn check_circuit_reports_first_violation_only() {
    let evals = vec![vec![0, 0], vec![0, 3, 5], vec![9]];
    let violation = check_circuit("avm", &evals).unwrap_err();
    assert_eq!(violation.relation, "avm");
    assert_eq!(violation.row, 1);
    assert_eq!(violation.subrelation, 1);
}

#[test]
fn hpp_includes_substitute_the_name() {
    let text = trace_hpp_includes("avm");
    assert!(text.starts_with("\n    // AUTOGENERATED FILE\n    #pragma once\n"));
    assert!(text.contains("#include \"barretenberg/honk/flavor/generated/avm_flavor.hpp\""));
    assert!(text.contains(
        "#include \"barretenberg/proof_system/arithmetization/generated/avm_arith.hpp\""
    ));
    assert!(text.contains("#include \"barretenberg/proof_system/relations/generated/avm.hpp\""));
}

#[test]
fn cpp_includes_substitute_path_and_name() {
    let text = trace_cpp_includes("proof_system/relations/generated", "avm");
    assert!(text.contains("#include \"barretenberg/proof_system/relations/generated/avm.hpp\""));
    assert!(text.contains(
        "#include \"barretenberg/proof_system/arithmetization/generated/avm_arith.hpp\""
    ));
    assert!(text.contains("#include <cstdint>"));
}

#[test]
fn emitted_module_carries_schema_and_name() {
    let all = cols(&["a", "b"]);
    let shifted = cols(&["b"]);
    let text = trace_builder_hpp("avm", &all, &shifted);
    assert!(text.contains("class avmTraceBuilder {"));
    assert!(text.contains("using FF = arithmetization::avmArithmetization::FF;"));
    assert!(text.contains("using Row = avm_vm::Row<FF>;"));
    assert!(text.contains("static constexpr size_t num_fixed_columns = 3;"));
    assert!(text.contains("static constexpr size_t num_polys = 2;"));
    assert!(text.contains("polys.a[i] = rows[i].a;\npolys.b[i] = rows[i].b;"));
    assert!(text.contains("polys.b_shift = Polynomial(polys.b.shifted());"));
    assert!(text.contains("[[maybe_unused]] void build_circuit();"));
    assert!(text.contains("evaluate_relation.template operator()<avm_vm::avm<FF>>(\"avm\");"));
    let a_at = text.find("polys.a[i]").unwrap();
    let b_at = text.find("polys.b[i]").unwrap();
    assert!(a_at < b_at);
}

#[test]
fn emitter_trait_matches_free_function() {
    let all = cols(&["x"]);
    let shifted = cols(&[]);
    let mut emitter = ModuleEmitter;
    let from_trait = emitter.create_trace_builder_hpp("vm", &all, &shifted);
    let direct = trace_builder_hpp("vm", &all, &shifted);
    assert_eq!(from_trait, direct);
}

#[test]
fn generation_is_deterministic_byte_for_byte() {
    let all = cols(&["a", "b", "c"]);
    let shifted = cols(&["a", "c"]);
    let first = trace_builder_hpp("avm", &all, &shifted);
    let second = trace_builder_hpp("avm", &all, &shifted);
    assert_eq!(first, second);
    assert_eq!(first.as_bytes(), second.as_bytes());
    assert_eq!(trace_hpp_includes("avm"), trace_hpp_includes("avm"));
    assert_eq!(
        trace_cpp_includes("relations", "avm"),
        trace_cpp_includes("relations", "avm")
    );
}

#[test]
fn empty_schema_still_emits_a_module() {
    let all: Vec<String> = vec![];
    let shifted: Vec<String> = vec![];
    let text = trace_builder_hpp("avm", &all, &shifted);
    assert!(text.contains("static constexpr size_t num_fixed_columns = 0;"));
    assert!(text.contains("static constexpr size_t num_polys = 0;"));
    assert!(text.ends_with("};\n}\n        "));
}

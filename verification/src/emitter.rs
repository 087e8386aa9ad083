//! The module emitter: assembles the header preamble, the derived size
//! constants and the per-column member code into the complete C++ text of
//! one trace-builder class, parameterized by the circuit name.

use vstd::prelude::*;

use crate::includes::spec_trace_hpp_includes;
use crate::includes::trace_hpp_includes;
use crate::members::assignment_block;
use crate::members::shift_block;
use crate::members::spec_assignment_block;
use crate::members::spec_shift_block;
use crate::numerals::decimal_string;
use crate::numerals::spec_decimal;

verus! {

/// The number of base polynomials of a schema: one per column.
pub fn num_polys(all_cols: &[String]) -> (r: usize)
    ensures
        r == all_cols@.len(),
{
    all_cols.len()
}

/// The number of column slots the emitted container declares: every column
/// once more for each shifted derivative, so shifted columns are counted
/// twice. The downstream layout expects this double count; it is kept as
/// the consumers' reconciliation point.
pub fn num_cols(all_cols: &[String], to_be_shifted: &[String]) -> (r: usize)
    requires
        all_cols@.len() + to_be_shifted@.len() <= usize::MAX,
    ensures
        r == all_cols@.len() + to_be_shifted@.len(),
{
    all_cols.len() + to_be_shifted.len()
}

/// The full text of the generated trace-builder module for circuit `name`
/// over the given column views: preamble, class head, size constants, the
/// row-to-polynomial assignment loop, the shift derivations, and the fixed
/// constraint-check and sizing methods.
pub open spec fn spec_trace_builder_hpp(
    name: Seq<char>,
    cols: Seq<Seq<char>>,
    shifted: Seq<Seq<char>>,
) -> Seq<char> {
    "\n"@ + spec_trace_hpp_includes(name)
        + "\n\nusing namespace barretenberg;\n\nnamespace proof_system {\n\nclass "@ + name
        + "TraceBuilder {\n    public:\n        using FF = arithmetization::"@ + name
        + "Arithmetization::FF;\n        using Row = "@ + name
        + "_vm::Row<FF>;\n\n        // TODO: tempalte\n        using Polynomial = honk::flavor::"@
        + name + "Flavor::Polynomial;\n        using AllPolynomials = honk::flavor::"@ + name
        + "Flavor::AllPolynomials;\n\n        static constexpr size_t num_fixed_columns = "@
        + spec_decimal(cols.len() + shifted.len()) + ";\n        static constexpr size_t num_polys = "@
        + spec_decimal(cols.len())
        + ";\n        std::vector<Row> rows;\n\n        [[maybe_unused]] void build_circuit();\n\n        AllPolynomials compute_polynomials() {\n            const auto num_rows = get_circuit_subgroup_size();\n            AllPolynomials polys;\n\n            // Allocate mem for each column\n            for (size_t i = 0; i < num_fixed_columns; ++i) {\n                polys[i] = Polynomial(num_rows);\n            }\n\n            for (size_t i = 0; i < rows.size(); i++) {\n                "@
        + spec_assignment_block(cols) + "\n            }\n\n            "@ + spec_shift_block(
        shifted,
    )
        + "\n\n            return polys;\n        }\n\n        [[maybe_unused]] bool check_circuit() {\n            auto polys = compute_polynomials();\n            const size_t num_rows = polys[0].size();\n\n            const auto evaluate_relation = [&]<typename Relation>(const std::string& relation_name) {\n                typename Relation::ArrayOfValuesOverSubrelations result;\n                for (auto& r : result) {\n                    r = 0;\n                }\n                constexpr size_t NUM_SUBRELATIONS = result.size();\n\n                for (size_t i = 0; i < num_rows; ++i) {\n                    Relation::accumulate(result, polys.get_row(i), {}, 1);\n\n                    bool x = true;\n                    for (size_t j = 0; j < NUM_SUBRELATIONS; ++j) {\n                        if (result[j] != 0) {\n                            throw_or_abort(format(\"Relation \", relation_name, \", subrelation index \", j, \" failed at row \", i));\n                            x = false;\n                        }\n                    }\n                    if (!x) {\n                        return false;\n                    }\n                }\n                return true;\n            };\n\n            return evaluate_relation.template operator()<"@
        + name + "_vm::"@ + name + "<FF>>(\""@ + name
        + "\");\n        }\n\n        [[nodiscard]] size_t get_num_gates() const { return rows.size(); }\n\n        [[nodiscard]] size_t get_circuit_subgroup_size() const\n        {\n            const size_t num_rows = get_num_gates();\n            const auto num_rows_log2 = static_cast<size_t>(numeric::get_msb64(num_rows));\n            size_t num_rows_pow2 = 1UL << (num_rows_log2 + (1UL << num_rows_log2 == num_rows ? 0 : 1));\n            return num_rows_pow2;\n        }\n\n\n};\n}\n        "@
}

/// Emits the complete trace-builder module for `name` and the schema
/// `(all_cols, to_be_shifted)`.
pub fn trace_builder_hpp(name: &str, all_cols: &[String], to_be_shifted: &[String]) -> (hpp:
    String)
    requires
        all_cols@.len() + to_be_shifted@.len() <= usize::MAX,
    ensures
        hpp@ == spec_trace_builder_hpp(name@, all_cols.deep_view(), to_be_shifted.deep_view()),
{
    let includes = trace_hpp_includes(name);
    let n_cols = num_cols(all_cols, to_be_shifted);
    let n_polys = num_polys(all_cols);
    let cols_count = decimal_string(n_cols);
    let polys_count = decimal_string(n_polys);
    let assignments = assignment_block(all_cols);
    let shifts = shift_block(to_be_shifted);
    proof {
        assert(all_cols.deep_view().len() == all_cols@.len());
        assert(to_be_shifted.deep_view().len() == to_be_shifted@.len());
    }
    let mut s = String::from_str("\n");
    s.append(includes.as_str());
    s.append("\n\nusing namespace barretenberg;\n\nnamespace proof_system {\n\nclass ");
    s.append(name);
    s.append("TraceBuilder {\n    public:\n        using FF = arithmetization::");
    s.append(name);
    s.append("Arithmetization::FF;\n        using Row = ");
    s.append(name);
    s.append("_vm::Row<FF>;\n\n        // TODO: tempalte\n        using Polynomial = honk::flavor::");
    s.append(name);
    s.append("Flavor::Polynomial;\n        using AllPolynomials = honk::flavor::");
    s.append(name);
    s.append("Flavor::AllPolynomials;\n\n        static constexpr size_t num_fixed_columns = ");
    s.append(cols_count.as_str());
    s.append(";\n        static constexpr size_t num_polys = ");
    s.append(polys_count.as_str());
    s.append(
        ";\n        std::vector<Row> rows;\n\n        [[maybe_unused]] void build_circuit();\n\n        AllPolynomials compute_polynomials() {\n            const auto num_rows = get_circuit_subgroup_size();\n            AllPolynomials polys;\n\n            // Allocate mem for each column\n            for (size_t i = 0; i < num_fixed_columns; ++i) {\n                polys[i] = Polynomial(num_rows);\n            }\n\n            for (size_t i = 0; i < rows.size(); i++) {\n                ",
    );
    s.append(assignments.as_str());
    s.append("\n            }\n\n            ");
    s.append(shifts.as_str());
    s.append(
        "\n\n            return polys;\n        }\n\n        [[maybe_unused]] bool check_circuit() {\n            auto polys = compute_polynomials();\n            const size_t num_rows = polys[0].size();\n\n            const auto evaluate_relation = [&]<typename Relation>(const std::string& relation_name) {\n                typename Relation::ArrayOfValuesOverSubrelations result;\n                for (auto& r : result) {\n                    r = 0;\n                }\n                constexpr size_t NUM_SUBRELATIONS = result.size();\n\n                for (size_t i = 0; i < num_rows; ++i) {\n                    Relation::accumulate(result, polys.get_row(i), {}, 1);\n\n                    bool x = true;\n                    for (size_t j = 0; j < NUM_SUBRELATIONS; ++j) {\n                        if (result[j] != 0) {\n                            throw_or_abort(format(\"Relation \", relation_name, \", subrelation index \", j, \" failed at row \", i));\n                            x = false;\n                        }\n                    }\n                    if (!x) {\n                        return false;\n                    }\n                }\n                return true;\n            };\n\n            return evaluate_relation.template operator()<",
    );
    s.append(name);
    s.append("_vm::");
    s.append(name);
    s.append("<FF>>(\"");
    s.append(name);
    s.append(
        "\");\n        }\n\n        [[nodiscard]] size_t get_num_gates() const { return rows.size(); }\n\n        [[nodiscard]] size_t get_circuit_subgroup_size() const\n        {\n            const size_t num_rows = get_num_gates();\n            const auto num_rows_log2 = static_cast<size_t>(numeric::get_msb64(num_rows));\n            size_t num_rows_pow2 = 1UL << (num_rows_log2 + (1UL << num_rows_log2 == num_rows ? 0 : 1));\n            return num_rows_pow2;\n        }\n\n\n};\n}\n        ",
    );
    s
}

/// Generation is deterministic: two module texts generated from one and the
/// same circuit name and column schema are identical.
pub proof fn lemma_generation_deterministic(
    name: Seq<char>,
    cols: Seq<Seq<char>>,
    shifted: Seq<Seq<char>>,
    first: Seq<char>,
    second: Seq<char>,
)
    requires
        first == spec_trace_builder_hpp(name, cols, shifted),
        second == spec_trace_builder_hpp(name, cols, shifted),
    ensures
        first == second,
{
}

} // verus!

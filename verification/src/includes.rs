//! The header preamble of the emitted sources: a fixed boilerplate plus a
//! few paths parameterized by the circuit name. Names are substituted as
//! given; whether they are legal path fragments is the caller's concern.

use vstd::prelude::*;

verus! {

/// The preamble of the generated `.cpp` source for a circuit.
pub open spec fn spec_trace_cpp_includes(relation_path: Seq<char>, name: Seq<char>) -> Seq<char> {
    "\n"@
        + "\n#include \"barretenberg/ecc/curves/bn254/fr.hpp\"\n#include <cstdint>\n#include <fstream>\n#include <iostream>\n#include <string>\n#include <sys/types.h>\n#include <vector>\n#include \"barretenberg/proof_system/arithmetization/arithmetization.hpp\"\n"@
        + "\n#include \"barretenberg/"@ + relation_path + "/"@ + name
        + ".hpp\"\n#include \"barretenberg/proof_system/arithmetization/generated/"@ + name
        + "_arith.hpp\"\n"@
}

/// The preamble of the generated `.hpp` header for a circuit.
pub open spec fn spec_trace_hpp_includes(name: Seq<char>) -> Seq<char> {
    "\n    // AUTOGENERATED FILE\n    #pragma once\n\n    #include \"barretenberg/common/throw_or_abort.hpp\"\n    #include \"barretenberg/ecc/curves/bn254/fr.hpp\"\n    #include \"barretenberg/proof_system/arithmetization/arithmetization.hpp\"\n    #include \"barretenberg/proof_system/circuit_builder/circuit_builder_base.hpp\"\n    \n    #include \"barretenberg/honk/flavor/generated/"@
        + name + "_flavor.hpp\"\n    #include \"barretenberg/proof_system/arithmetization/generated/"@
        + name + "_arith.hpp\"\n    #include \"barretenberg/proof_system/relations/generated/"@
        + name + ".hpp\"\n"@
}

/// The `.cpp` preamble: fixed system and library headers, then the relation
/// header under `relation_path` and the arithmetization header, both named
/// after the circuit.
pub fn trace_cpp_includes(relation_path: &str, name: &str) -> (r: String)
    ensures
        r@ == spec_trace_cpp_includes(relation_path@, name@),
{
    let mut s = String::from_str("\n");
    s.append(
        "\n#include \"barretenberg/ecc/curves/bn254/fr.hpp\"\n#include <cstdint>\n#include <fstream>\n#include <iostream>\n#include <string>\n#include <sys/types.h>\n#include <vector>\n#include \"barretenberg/proof_system/arithmetization/arithmetization.hpp\"\n",
    );
    s.append("\n#include \"barretenberg/");
    s.append(relation_path);
    s.append("/");
    s.append(name);
    s.append(".hpp\"\n#include \"barretenberg/proof_system/arithmetization/generated/");
    s.append(name);
    s.append("_arith.hpp\"\n");
    s
}

/// The `.hpp` preamble: fixed proof-system headers, then the flavor,
/// arithmetization and relation headers named after the circuit.
pub fn trace_hpp_includes(name: &str) -> (r: String)
    ensures
        r@ == spec_trace_hpp_includes(name@),
{
    let mut s = String::from_str(
        "\n    // AUTOGENERATED FILE\n    #pragma once\n\n    #include \"barretenberg/common/throw_or_abort.hpp\"\n    #include \"barretenberg/ecc/curves/bn254/fr.hpp\"\n    #include \"barretenberg/proof_system/arithmetization/arithmetization.hpp\"\n    #include \"barretenberg/proof_system/circuit_builder/circuit_builder_base.hpp\"\n    \n    #include \"barretenberg/honk/flavor/generated/",
    );
    s.append(name);
    s.append("_flavor.hpp\"\n    #include \"barretenberg/proof_system/arithmetization/generated/");
    s.append(name);
    s.append("_arith.hpp\"\n    #include \"barretenberg/proof_system/relations/generated/");
    s.append(name);
    s.append(".hpp\"\n");
    s
}

} // verus!

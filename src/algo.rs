use vstd::prelude::*;

use crate::error::MiningError;

verus! {

/// The proof-of-work search variants that a pool accepts.
#[derive(Debug, Clone, Copy, PartialEq, Eq, Structural)]
pub enum AlgoType {
    Grid2d,
    Grid2dV2,
    Grid2dV3,
}

/// The stable wire name of each variant.
pub open spec fn algo_name(a: AlgoType) -> Seq<char> {
    match a {
        AlgoType::Grid2d => "Grid2d"@,
        AlgoType::Grid2dV2 => "Grid2dV2"@,
        AlgoType::Grid2dV3 => "Grid2dV3"@,
    }
}

impl AlgoType {
    pub fn as_str(&self) -> (r: &'static str)
        ensures
            r@ == algo_name(*self),
    {
        match self {
            AlgoType::Grid2d => "Grid2d",
            AlgoType::Grid2dV2 => "Grid2dV2",
            AlgoType::Grid2dV3 => "Grid2dV3",
        }
    }
}

/// Shape of the search space: the algorithm, the grid size and the sector count.
#[derive(Debug, Clone, Copy, PartialEq, Eq, Structural)]
pub struct P3dParams {
    pub algo: AlgoType,
    pub grid: usize,
    pub sect: usize,
}

/// The search parameters that a configuration name selects, if it is known.
pub open spec fn params_for(ver: Seq<char>) -> Option<P3dParams> {
    if ver == "grid2d"@ {
        Some(P3dParams { algo: AlgoType::Grid2d, grid: 8, sect: 66 })
    } else if ver == "grid2d_v2"@ {
        Some(P3dParams { algo: AlgoType::Grid2dV2, grid: 8, sect: 12 })
    } else if ver == "grid2d_v3"@ {
        Some(P3dParams { algo: AlgoType::Grid2dV3, grid: 8, sect: 12 })
    } else {
        None
    }
}

/// Whether two strings hold the same characters.
pub fn same_text(a: &str, b: &str) -> (r: bool)
    ensures
        r == (a@ == b@),
{
    let n = a.unicode_len();
    if n != b.unicode_len() {
        return false;
    }
    let mut i: usize = 0;
    while i < n
        invariant
            n == a@.len() == b@.len(),
            i <= n,
            forall|j: int| 0 <= j < i ==> a@[j] == b@[j],
        decreases n - i,
    {
        if a.get_char(i) != b.get_char(i) {
            return false;
        }
        i = i + 1;
    }
    assert(a@ =~= b@);
    true
}

impl P3dParams {
    /// Selects the search parameters by configuration name; an unknown name is
    /// a configuration error.
    pub fn new(ver: &str) -> (r: Result<P3dParams, MiningError>)
        ensures
            params_for(ver@) matches Some(p) ==> r == Ok::<P3dParams, MiningError>(p),
            params_for(ver@) is None ==> r == Err::<P3dParams, MiningError>(
                MiningError::UnknownAlgorithm,
            ),
    {
        let grid: usize = 8;
        if same_text(ver, "grid2d") {
            Ok(P3dParams { algo: AlgoType::Grid2d, grid, sect: 66 })
        } else if same_text(ver, "grid2d_v2") {
            Ok(P3dParams { algo: AlgoType::Grid2dV2, grid, sect: 12 })
        } else if same_text(ver, "grid2d_v3") {
            Ok(P3dParams { algo: AlgoType::Grid2dV3, grid, sect: 12 })
        } else {
            Err(MiningError::UnknownAlgorithm)
        }
    }
}

} // verus!

//! What the command line asks for.

use crate::models::{Algorithm, Chain};
use vstd::prelude::*;

verus! {

/// Whether a result is printed, by the path that is given for it.
pub open spec fn goes_to_stdout(file_path: Seq<char>) -> bool {
    file_path == "-"@
}

/// What a simulation is asked for.
#[derive(Debug, Clone)]
pub struct SimulateArgs {
    /// The block with the snapshot, by its hash, or `latest`.
    pub block: String,
    /// The algorithm that solves the election.
    pub algorithm: Algorithm,
    /// The number of balancing iterations.
    pub iterations: usize,
    /// Whether the assignments are reduced.
    pub reduce: bool,
    /// The number of validators to elect, if not that of the chain.
    pub desired_validators: Option<u32>,
    /// The most nominations of a voter, if not those of the chain.
    pub max_nominations: Option<u32>,
    /// The least bond of a nominator, if not that of the chain.
    pub min_nominator_bond: Option<u128>,
    /// The least bond of a validator, if not that of the chain.
    pub min_validator_bond: Option<u128>,
    /// The file that the result is written to; `-` has it printed.
    pub output: String,
    /// A file with voters and candidates that take the place of those of the chain.
    pub manual_override: Option<String>,
}

impl Default for SimulateArgs {
    /// What holds where nothing is asked for. The result is printed.
    fn default() -> (r: SimulateArgs)
        ensures
            r.block@ == "latest"@,
            r.algorithm == Algorithm::SeqPhragmen,
            r.iterations == 0,
            !r.reduce,
            r.desired_validators is None,
            r.max_nominations is None,
            r.min_nominator_bond is None,
            r.min_validator_bond is None,
            r.output@ == "-"@,
            goes_to_stdout(r.output@),
            r.manual_override is None,
    {
        SimulateArgs {
            block: "latest".to_owned(),
            algorithm: Algorithm::SeqPhragmen,
            iterations: 0,
            reduce: false,
            desired_validators: None,
            max_nominations: None,
            min_nominator_bond: None,
            min_validator_bond: None,
            output: "-".to_owned(),
            manual_override: None,
        }
    }
}

impl SimulateArgs {
    /// How many validators are elected: as many as are asked for, or else as many as the chain
    /// says.
    pub fn to_elect(&self, chain_default: u32) -> (r: u32)
        ensures
            r == match self.desired_validators {
                Some(n) => n,
                None => chain_default,
            },
    {
        match self.desired_validators {
            Some(n) => n,
            None => chain_default,
        }
    }
}

/// What a snapshot is asked for.
#[derive(Debug, Clone)]
pub struct SnapshotArgs {
    /// The block with the snapshot, by its hash, or `latest`.
    pub block: String,
    /// The file that the snapshot is written to; `-` has it printed.
    pub output: String,
}

impl Default for SnapshotArgs {
    /// What holds where nothing is asked for. The result is printed.
    fn default() -> (r: SnapshotArgs)
        ensures
            r.block@ == "latest"@,
            r.output@ == "-"@,
            goes_to_stdout(r.output@),
    {
        SnapshotArgs { block: "latest".to_owned(), output: "-".to_owned() }
    }
}

fn same_text(a: &str, b: &str) -> (r: bool)
    ensures
        r == (a@ == b@),
{
    a.to_owned() == b.to_owned()
}

/// The runtime of a chain that is not known.
#[derive(Debug, Clone, Copy, PartialEq, Eq, Structural)]
pub struct UnsupportedChain;

impl UnsupportedChain {
    /// The error in words.
    pub fn message(&self) -> (r: &'static str)
        ensures
            r@ == "Unsupported chain"@,
    {
        "Unsupported chain"
    }
}

/// The chain that a runtime belongs to, by the name of its specification. The asset hubs count as
/// the chains that they belong to.
pub open spec fn chain_of(spec_name: Seq<char>) -> Option<Chain> {
    if spec_name == "polkadot"@ || spec_name == "statemint"@ {
        Some(Chain::Polkadot)
    } else if spec_name == "kusama"@ || spec_name == "statemine"@ {
        Some(Chain::Kusama)
    } else if spec_name == "substrate"@ {
        Some(Chain::Substrate)
    } else {
        None
    }
}

/// The chain that a runtime belongs to, by the name of its specification.
pub fn chain_for_spec_name(spec_name: &str) -> (r: Result<Chain, UnsupportedChain>)
    ensures
        r == match chain_of(spec_name@) {
            Some(chain) => Ok::<Chain, UnsupportedChain>(chain),
            None => Err(UnsupportedChain),
        },
{
    if same_text(spec_name, "polkadot") || same_text(spec_name, "statemint") {
        Ok(Chain::Polkadot)
    } else if same_text(spec_name, "kusama") || same_text(spec_name, "statemine") {
        Ok(Chain::Kusama)
    } else if same_text(spec_name, "substrate") {
        Ok(Chain::Substrate)
    } else {
        Err(UnsupportedChain)
    }
}

/// The value of a hexadecimal digit.
pub open spec fn hex_digit(c: char) -> Option<int> {
    if '0' <= c && c <= '9' {
        Some(c as int - '0' as int)
    } else if 'a' <= c && c <= 'f' {
        Some(c as int - 'a' as int + 10)
    } else if 'A' <= c && c <= 'F' {
        Some(c as int - 'A' as int + 10)
    } else {
        None
    }
}

/// The characters of a text that are no spaces, tabs or line ends.
pub open spec fn without_blanks(s: Seq<char>) -> Seq<char> {
    s.filter(|c: char| c != ' ' && c != '\t' && c != '\r' && c != '\n')
}

/// The hash that digits spell out: 64 of them, two to a byte, the high one first.
pub open spec fn hash_of_digits(digits: Seq<char>) -> Option<Seq<u8>> {
    if digits.len() == 64 && forall|i: int|
        0 <= i < 64 ==> hex_digit(#[trigger] digits[i]) is Some {
        Some(
            Seq::new(
                32,
                |i: int| (16 * hex_digit(digits[2 * i])->0 + hex_digit(digits[2 * i + 1])->0) as u8,
            ),
        )
    } else {
        None
    }
}

/// The hash that a text spells out: 64 hexadecimal digits, two to a byte, behind `0x` or without
/// it, with blanks between them passed over.
pub open spec fn parse_hash(s: Seq<char>) -> Option<Seq<u8>> {
    hash_of_digits(
        without_blanks(
            if s.len() >= 2 && s[0] == '0' && s[1] == 'x' {
                s.skip(2)
            } else {
                s
            },
        ),
    )
}

/// `H256::from_str` of `sp_core`: one leading `0x` is passed over, and so are spaces, tabs and
/// line ends anywhere behind it; what is left must be 64 hexadecimal digits of either case, two
/// to a byte, the high one first. Anything else is an error.
#[verifier::external_body]
fn hash_from_str(s: &str) -> (r: Option<crate::primitives::Hash>)
    ensures
        match r {
            Some(hash) => parse_hash(s@) == Some(hash@),
            None => parse_hash(s@) is None,
        },
{
    s.parse::<sp_core::H256>().ok().map(|hash| hash.0)
}

/// A text that should name a block, and is no hash.
#[derive(Debug, Clone, Copy, PartialEq, Eq, Structural)]
pub struct InvalidBlock;

/// The block that a text names: the latest, for which there is no hash, or one by its hash.
pub fn select_block(block: &str) -> (r: Result<Option<crate::primitives::Hash>, InvalidBlock>)
    ensures
        match r {
            Ok(None) => block@ == "latest"@,
            Ok(Some(hash)) => block@ != "latest"@ && parse_hash(block@) == Some(hash@),
            Err(_) => block@ != "latest"@ && parse_hash(block@) is None,
        },
{
    if same_text(block, "latest") {
        Ok(None)
    } else {
        match hash_from_str(block) {
            Some(hash) => Ok(Some(hash)),
            None => Err(InvalidBlock),
        }
    }
}

/// Where a result goes.
#[derive(Debug, Clone)]
pub enum OutputTarget {
    /// It is printed.
    Stdout,
    /// It is written to the file at this path.
    File(String),
}

/// Where a result goes by the path that is given for it: `-` has it printed.
pub fn output_target(file_path: String) -> (r: OutputTarget)
    ensures
        match r {
            OutputTarget::Stdout => goes_to_stdout(file_path@),
            OutputTarget::File(path) => !goes_to_stdout(file_path@) && path == file_path,
        },
{
    if same_text(file_path.as_str(), "-") {
        OutputTarget::Stdout
    } else {
        OutputTarget::File(file_path)
    }
}

} // verus!

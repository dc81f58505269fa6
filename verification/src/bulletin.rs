//! The operator bulletin: the status text that a running node repeats on a
//! fixed cadence.

use colored::Colorize;
use vstd::prelude::*;
use vstd::string::*;

verus! {

/// The bulletin, character for character.
pub const BULLETIN: &'static str = "

 ==================================================================================================

                     \u{1f6a7} Welcome to Aleo Testnet 3 Phase 3 - Calibration Period \u{1f6a7}

 ==================================================================================================

     During the calibration period, the network will be running in limited capacity.

     This calibration period is to ensure validators are stable and ready for mainnet launch.
     During this period, the objective is to assess, adjust, and align validators' performance,
     stability, and interoperability under varying network conditions.

     Please expect several network resets. With each network reset, software updates will
     be performed to address potential bottlenecks, vulnerabilities, and/or inefficiencies, which
     will ensure optimal performance for the ecosystem of validators, provers, and developers.

 ==================================================================================================

    Duration:
    - Start Date: September 27, 2023
    - End Date: October 18, 2023 (subject to change)

    Participation:
    - Node operators are NOT REQUIRED to participate during this calibration period.

    Network Resets:
    - IMPORTANT: EXPECT MULTIPLE NETWORK RESETS.
    - If participating, BE PREPARED TO RESET YOUR NODE AT ANY TIME.
    - When a reset occurs, RUN THE FOLLOWING TO RESET YOUR NODE:
        - git checkout testnet3 && git pull
        - cargo install --path .
        - snarkos clean
        - snarkos start --nodisplay --client

    Communication:
    - Stay ONLINE and MONITOR our Discord and Twitter for community updates.

    Purpose:
    - This period is STRICTLY FOR NETWORK CALIBRATION.
    - This period is NOT INTENDED for general-purpose usage by developers and provers.

    Incentives:
    - There are NO INCENTIVES during this calibration period.

 ==================================================================================================
";

/// What the bulletin says, as a sequence of characters.
pub open spec fn bulletin_text() -> Seq<char> {
    BULLETIN@
}

/// Calls `Colorize::white` and then `Colorize::bold` of `colored` on `text`,
/// and reads the styled value back through its `Deref` to `str`. In `colored`
/// both calls only record a colour and a style beside the unchanged input,
/// and `Deref` hands that input out, so the contract claims that the
/// characters that come back are those that went in.
#[verifier::external_body]
fn white_bold(text: &str) -> (plain: String)
    ensures
        plain@ == text@,
{
    let styled = text.white().bold();
    String::from(&*styled)
}

/// Returns the bulletin as a string.
pub fn notification_message() -> (output: String)
    ensures
        output@ == bulletin_text(),
{
    let mut output = String::new();
    let styled = white_bold(BULLETIN);
    output.append(styled.as_str());
    assert(output@ =~= bulletin_text());
    output
}

} // verus!

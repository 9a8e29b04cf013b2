//! Decision logic of a constant-product automated market maker.
//!
//! Every instruction of the pool (initialize, deposit, withdraw, swap and
//! fee collection) is split into what it decides and what it performs.  The
//! decisions live here, verified: the checks that reject a request, the fee
//! arithmetic, and the exact list of token movements that an accepted request
//! makes.  Moving tokens, minting and burning LP tokens, and the pricing
//! curve are performed by the program around this library.

pub mod actions;
pub mod constants;
pub mod curve;
pub mod error;
pub mod instructions;
pub mod laws;
pub mod state;
pub mod token_side;

pub use error::{AmmError, CurveError};
pub use instructions::collect_fees::CollectFees;
pub use instructions::deposit::{Deposit, DepositQuote, DepositStep};
pub use instructions::initialize::{Initialize, InitializeBumps};
pub use instructions::swap::{Swap, SwapQuote};
pub use instructions::withdraw::{Withdraw, WithdrawQuote};
pub use state::{Config, Key};

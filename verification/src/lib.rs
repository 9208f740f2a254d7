//! Hardware-neutral logic of a motion-control card abstraction: card
//! configuration, the state that every card adapter keeps, the decoding of
//! what the vendor SDKs report, a simulated card, and a registry of card
//! constructors.

pub mod advantech;
pub mod card;
pub mod clock;
pub mod config;
pub mod error;
pub mod factory;
pub mod googol;
pub mod leisai;
pub mod mock;
pub mod models;
pub mod text;

pub use advantech::{AdvantechAxis, AdvantechCard};
pub use config::CardConfig;
pub use error::{MotionError, Result};
pub use factory::CardFactory;
pub use googol::{GoogolAxis, GoogolCard};
pub use leisai::{LeisaiAxis, LeisaiCard};
pub use mock::MockCard;
pub use models::{AxisStatus, CardStatus, CardVendor, HomeMode, StopMode};

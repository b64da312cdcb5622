//! Verified state and decision logic of a Minecraft launcher front end:
//! the account list and the current account, the instance list, the mapping
//! between the loader choices of the instance form and the launcher's mod
//! loaders, and the choice of the game directory.

mod names;
pub mod loader;
pub mod account;
pub mod instance;
pub mod state;
pub mod paths;

pub use loader::{LoaderKind, LoaderS, to_loader, to_slint_loader_enum};
pub use account::{Account, AccountS};
pub use instance::{Instance, InstanceS, SimpleInstance};
pub use state::AppState;
pub use paths::{DirBase, game_dir, get_minecraft_dir, minecraft_dir_base};

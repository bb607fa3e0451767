pub mod component;
pub mod entity;
pub mod identity;
pub mod laws;
pub mod typeable;
pub mod world;

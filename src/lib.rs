//! Topology and faction model of the standard board of a map-based strategy game:
//! regions (split-coast provinces as one region per coastal face), the adjacency
//! graph, and each nation's home territories with their starting units; and the
//! rule that keeps requested asset names inside their directory.
pub mod assets;
pub mod board;
pub mod province;
pub mod standard;

//! Mesh BFT consensus and DAO governance, with their rules proved by Verus.

pub mod id_map;
pub mod clock;
pub mod mesh_consensus;
pub mod dao;

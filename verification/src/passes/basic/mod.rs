pub mod constant_folding;
pub mod dead_node_elimination;

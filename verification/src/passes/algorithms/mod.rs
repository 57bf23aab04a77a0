pub mod constant_folding;

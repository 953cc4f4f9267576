pub mod escrow;

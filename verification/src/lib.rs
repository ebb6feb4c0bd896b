pub mod asset;

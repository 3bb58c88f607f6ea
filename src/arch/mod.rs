pub mod arm64;

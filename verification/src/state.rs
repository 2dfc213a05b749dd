pub mod stake;

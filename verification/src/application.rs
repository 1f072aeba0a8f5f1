pub mod usecase;

pub mod dto;
pub mod usecase;

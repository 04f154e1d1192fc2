pub mod constant_product;

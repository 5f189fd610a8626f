pub mod load_static_data;

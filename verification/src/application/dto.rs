pub mod loaded_static_data;

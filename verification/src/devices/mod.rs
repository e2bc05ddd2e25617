pub mod corner_lights;

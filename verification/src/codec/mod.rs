pub mod corner_light_actuation;
pub mod kinds;

pub mod cdisp;
pub mod gamelump;
pub mod occlusion;
pub mod physcol_data;
pub mod vis;

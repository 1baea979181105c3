//! The verified core of a Spectre password manager: the algorithm's enumerations and
//! their codes and names, the model of users and their sites, identicons, and the
//! decisions that the graphical front end takes on them.
pub mod g_site;
pub mod identicon;
pub mod marshal;
pub mod site;
pub mod site_list;
pub mod spectre;
pub mod text;

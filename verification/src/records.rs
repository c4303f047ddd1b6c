//! The records kept in the local store: courses and sign-in positions.

use crate::text::{decimal, decimal_text};
use vstd::prelude::*;

verus! {

/// A course of a logged-in account.
#[derive(Debug, Clone)]
pub struct Course {
    pub id: i64,
    pub class_id: i64,
    pub teacher: String,
    pub image: String,
    pub name: String,
}

impl Course {
    /// A course from its fields, in the order the store reads them.
    pub fn new(id: i64, class_id: i64, teacher: &str, image: &str, name: &str) -> (c: Course)
        ensures
            c.id == id,
            c.class_id == class_id,
            c.teacher@ == teacher@,
            c.image@ == image@,
            c.name@ == name@,
    {
        Course {
            id,
            class_id,
            teacher: String::from_str(teacher),
            image: String::from_str(image),
            name: String::from_str(name),
        }
    }

    pub fn get_id(&self) -> (r: i64)
        ensures
            r == self.id,
    {
        self.id
    }

    pub fn get_class_id(&self) -> (r: i64)
        ensures
            r == self.class_id,
    {
        self.class_id
    }

    pub fn get_name(&self) -> (r: &str)
        ensures
            r@ == self.name@,
    {
        self.name.as_str()
    }

    pub fn get_teacher_name(&self) -> (r: &str)
        ensures
            r@ == self.teacher@,
    {
        self.teacher.as_str()
    }

    pub fn get_image_url(&self) -> (r: &str)
        ensures
            r@ == self.image@,
    {
        self.image.as_str()
    }
}

/// A position used for location and QR code sign-ins: a description and
/// coordinates, all kept as text.
#[derive(Debug, Clone)]
pub struct Address {
    pub addr: String,
    pub lon: String,
    pub lat: String,
    pub alt: String,
}

impl Address {
    /// A position from its description, longitude, latitude and altitude.
    pub fn new(addr: &str, lon: &str, lat: &str, alt: &str) -> (a: Address)
        ensures
            a.addr@ == addr@,
            a.lon@ == lon@,
            a.lat@ == lat@,
            a.alt@ == alt@,
    {
        Address {
            addr: String::from_str(addr),
            lon: String::from_str(lon),
            lat: String::from_str(lat),
            alt: String::from_str(alt),
        }
    }

    pub fn get_addr(&self) -> (r: &str)
        ensures
            r@ == self.addr@,
    {
        self.addr.as_str()
    }

    pub fn get_lon(&self) -> (r: &str)
        ensures
            r@ == self.lon@,
    {
        self.lon.as_str()
    }

    pub fn get_lat(&self) -> (r: &str)
        ensures
            r@ == self.lat@,
    {
        self.lat.as_str()
    }

    pub fn get_alt(&self) -> (r: &str)
        ensures
            r@ == self.alt@,
    {
        self.alt.as_str()
    }
}

/// The statement that deletes the stored position `posid`.
pub fn delete_pos_sql(posid: i64) -> (sql: String)
    ensures
        sql@ == "DELETE FROM pos WHERE posid="@ + decimal_text(posid as int) + ";"@,
{
    let mut sql = String::new();
    sql.append("DELETE FROM pos WHERE posid=");
    let n = decimal(posid);
    sql.append(n.as_str());
    sql.append(";");
    sql
}

} // verus!

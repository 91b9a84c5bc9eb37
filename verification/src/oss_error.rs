//! An error that the service reports in the body of its answer.

use crate::xml::{parsed_xml, XmlDocument, XmlError};
use vstd::prelude::*;

verus! {

/// An error of the service: its code, its message, and the XML text that
/// reported it.
#[derive(Debug)]
pub struct OssError {
    code: String,
    message: String,
    xml_string: String,
}

impl OssError {
    /// The error that the XML text `xml_string` reports. The text is kept;
    /// the code and the message are left empty. Fails where the text is no
    /// XML document.
    pub fn new_from_xml_string(xml_string: String) -> (r: Result<Self, XmlError>)
        ensures
            match r {
                Ok(error) => {
                    &&& parsed_xml(xml_string@) is Some
                    &&& error.code()@.len() == 0
                    &&& error.message()@.len() == 0
                    &&& error.xml_string()@ == xml_string@
                },
                Err(_) => parsed_xml(xml_string@) is None,
            },
    {
        match XmlDocument::parse(xml_string.as_str()) {
            Ok(_) => Ok(Self { code: String::new(), message: String::new(), xml_string }),
            Err(e) => Err(e),
        }
    }

    /// The code of the error.
    pub closed spec fn code(&self) -> String {
        self.code
    }

    /// The message of the error.
    pub closed spec fn message(&self) -> String {
        self.message
    }

    /// The XML text that reported the error.
    pub closed spec fn xml_string(&self) -> String {
        self.xml_string
    }

    /// The code of the error.
    pub fn get_code(&self) -> (r: &str)
        ensures
            r@ == self.code()@,
    {
        self.code.as_str()
    }

    /// The message of the error.
    pub fn get_message(&self) -> (r: &str)
        ensures
            r@ == self.message()@,
    {
        self.message.as_str()
    }

    /// The XML text that reported the error.
    pub fn get_xml_string(&self) -> (r: &str)
        ensures
            r@ == self.xml_string()@,
    {
        self.xml_string.as_str()
    }
}

} // verus!

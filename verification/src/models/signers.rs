//! Signers, and the ties between a signer and a document.
//!
//! The library does not look inside either: each is the JSON object that
//! the caller gave or the service sent, passed on as it is.

use crate::json::{json_of, Json};
use vstd::prelude::*;

verus! {

/// A person who may sign documents.
#[derive(Debug)]
pub struct Signer {
    payload: serde_json::Value,
}

impl View for Signer {
    type V = Json;

    closed spec fn view(&self) -> Json {
        json_of(self.payload)
    }
}

impl DeepView for Signer {
    type V = Json;

    open spec fn deep_view(&self) -> Json {
        self@
    }
}

impl Clone for Signer {
    /// A copy that is the same JSON object.
    fn clone(&self) -> (copy: Signer)
        ensures
            copy@ == self@,
    {
        proof {
            use_type_invariant(self);
        }
        Signer { payload: self.payload.clone() }
    }
}

impl Signer {
    #[verifier::type_invariant]
    spec fn is_object(&self) -> bool {
        json_of(self.payload) is Object
    }

    /// Takes a JSON object as a signer. There is a signer exactly where the
    /// value is an object, and it is that object.
    pub fn from_json(value: &serde_json::Value) -> (found: Option<Signer>)
        ensures
            found.deep_view() == (if json_of(*value) is Object {
                Some(json_of(*value))
            } else {
                None
            }),
    {
        match value.as_object() {
            Some(_) => Some(Signer { payload: value.clone() }),
            None => None,
        }
    }

    /// The JSON object that the signer is.
    pub fn to_json(&self) -> (value: serde_json::Value)
        ensures
            json_of(value) == self@,
            self@ is Object,
    {
        proof {
            use_type_invariant(self);
        }
        self.payload.clone()
    }
}

/// The tie between a signer and a document that the signer is to sign.
#[derive(Debug)]
pub struct SignerToDocument {
    payload: serde_json::Value,
}

impl View for SignerToDocument {
    type V = Json;

    closed spec fn view(&self) -> Json {
        json_of(self.payload)
    }
}

impl DeepView for SignerToDocument {
    type V = Json;

    open spec fn deep_view(&self) -> Json {
        self@
    }
}

impl Clone for SignerToDocument {
    /// A copy that is the same JSON object.
    fn clone(&self) -> (copy: SignerToDocument)
        ensures
            copy@ == self@,
    {
        proof {
            use_type_invariant(self);
        }
        SignerToDocument { payload: self.payload.clone() }
    }
}

impl SignerToDocument {
    #[verifier::type_invariant]
    spec fn is_object(&self) -> bool {
        json_of(self.payload) is Object
    }

    /// Takes a JSON object as a tie. There is a tie exactly where the value
    /// is an object, and it is that object.
    pub fn from_json(value: &serde_json::Value) -> (found: Option<SignerToDocument>)
        ensures
            found.deep_view() == (if json_of(*value) is Object {
                Some(json_of(*value))
            } else {
                None
            }),
    {
        match value.as_object() {
            Some(_) => Some(SignerToDocument { payload: value.clone() }),
            None => None,
        }
    }

    /// The JSON object that the tie is.
    pub fn to_json(&self) -> (value: serde_json::Value)
        ensures
            json_of(value) == self@,
            self@ is Object,
    {
        proof {
            use_type_invariant(self);
        }
        self.payload.clone()
    }
}

} // verus!

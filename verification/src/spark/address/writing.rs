//! How addresses and invoices are written as text.
use crate::bytes::copy_bytes;
use crate::spark::address::{AddressError, AddressFault, AddressValue, SparkAddress};
use crate::spark::address::convert::{
    fields_message, invoice_reads_back, is_restorable, is_well_formed,
};
use crate::spark::address::hash::{invoice_hash, zeros};
use crate::spark::address::prefix::{address_prefix, lower_keeps_prefix, network_of_own_prefix};
use crate::spark::address::reading::{address_of_text, signed_address};
use crate::spark::crypto::{
    PublicKey, bech32_fits, bech32m_encode, bech32m_encoded, is_public_key, schnorr_verifies,
    secp_public_key_of,
};
use crate::spark::messages::{AddressMessage, AddressModel};
use crate::spark::messages::writing::{
    address_bytes, decoded_address_of_address_bytes, encode_spark_address_canonical,
};
use crate::spark::signer::DefaultSigner;
use crate::spark::wire::varint;
use crate::text::join;
use vstd::prelude::*;
use vstd::string::*;

verus! {

broadcast use vstd::string::group_string_axioms;

/// The message that a signed invoice's text carries.
pub open spec fn invoice_message(a: AddressValue, signature: Seq<u8>) -> Result<
    AddressModel,
    AddressFault,
> {
    match a.invoice {
        None => Err(
            AddressFault::Other("Non-invoice addresses cannot be converted to invoice strings"@),
        ),
        Some(f) => match fields_message(f) {
            Err(e) => Err(e),
            Ok(m) => Ok(
                AddressModel {
                    identity_public_key: a.identity_public_key,
                    spark_invoice_fields: Some(m),
                    signature: Some(signature),
                },
            ),
        },
    }
}

/// Whether the text of a signed invoice stays within what a checksum covers.
pub open spec fn invoice_fits(a: AddressValue, signature: Seq<u8>) -> bool {
    invoice_message(a, signature) matches Ok(m) ==> bech32_fits(
        address_prefix(a.network).len(),
        address_bytes(m).len(),
    )
}

/// The text of a signed invoice, or why it has none.
pub open spec fn invoice_text(a: AddressValue, signature: Seq<u8>) -> Result<
    Seq<char>,
    AddressFault,
> {
    match invoice_message(a, signature) {
        Err(f) => Err(f),
        Ok(m) => match bech32m_encoded(address_prefix(a.network), address_bytes(m)) {
            Ok(t) => Ok(t),
            Err(e) => Err(AddressFault::Bech32EncodeError(e)),
        },
    }
}

/// What a signer has to sign for an invoice of its own.
pub open spec fn invoice_digest(
    a: AddressValue,
    signer_key: Result<Seq<u8>, Seq<char>>,
) -> Result<Seq<u8>, AddressFault> {
    match a.invoice {
        None => Err(
            AddressFault::Other("Non-invoice addresses cannot be converted to invoice strings"@),
        ),
        Some(f) => match signer_key {
            Err(e) => Err(AddressFault::Other("Failed to get identity public key: "@ + e)),
            Ok(k) => if a.identity_public_key != k {
                Err(AddressFault::Other("Cannot sign invoice for a different identity"@))
            } else {
                match fields_message(f) {
                    Err(e) => Err(e),
                    Ok(_) => invoice_hash(a),
                }
            },
        },
    }
}

pub open spec fn key_view(key: Result<PublicKey, String>) -> Result<Seq<u8>, Seq<char>> {
    match key {
        Ok(k) => Ok(k@),
        Err(e) => Err(e@),
    }
}

/// The message that an address carries which is no invoice.
pub open spec fn plain_message(key: Seq<u8>) -> AddressModel {
    AddressModel { identity_public_key: key, spark_invoice_fields: None, signature: None }
}

proof fn lemma_plain_message_len(key: Seq<u8>)
    requires
        key.len() == 33,
    ensures
        address_bytes(plain_message(key)).len() == 35,
{
    assert(varint(10).len() == 1);
    assert(varint(33).len() == 1);
}

impl SparkAddress {
    /// The text of an address that is no invoice. The text starts with the
    /// network's prefix, and stands for this address.
    pub fn to_address_string(&self) -> (res: Result<String, AddressError>)
        ensures
            match res {
                Ok(t) => {
                    &&& self@.invoice is None
                    &&& bech32m_encoded(
                        address_prefix(self@.network),
                        address_bytes(plain_message(self@.identity_public_key)),
                    ) == Ok::<Seq<char>, Seq<char>>(t@)
                    &&& (address_prefix(self@.network) + "1"@).is_prefix_of(t@)
                    &&& address_of_text(t@) == Some(Ok::<AddressValue, AddressFault>(self@))
                },
                Err(e) => self@.invoice is Some && e@ == AddressFault::Other(
                    "Invoice addresses cannot be converted to address strings"@,
                ),
            },
    {
        if self.is_invoice() {
            return Err(
                AddressError::Other(
                    "Invoice addresses cannot be converted to address strings".to_string(),
                ),
            );
        }
        let key = self.identity_public_key.serialize();
        proof {
            lemma_plain_message_len(key@);
            lower_keeps_prefix(self.network);
            network_of_own_prefix(self.network, address_prefix(self.network));
            decoded_address_of_address_bytes(plain_message(key@));
        }
        let proto_address = AddressMessage {
            identity_public_key: key,
            spark_invoice_fields: None,
            signature: None,
        };
        assert(proto_address@ =~= plain_message(self@.identity_public_key));
        let payload = encode_spark_address_canonical(&proto_address);
        match bech32m_encode(Self::network_to_hrp(&self.network), payload.as_slice()) {
            Ok(t) => Ok(t),
            Err(e) => Err(AddressError::Bech32EncodeError(e)),
        }
    }

    /// Whether the address is an invoice, which alone has an invoice's text.
    pub fn check_invoice(&self) -> (res: Result<(), AddressError>)
        ensures
            match res {
                Ok(_) => self@.invoice is Some,
                Err(e) => self@.invoice is None && e@ == AddressFault::Other(
                    "Non-invoice addresses cannot be converted to invoice strings"@,
                ),
            },
    {
        if self.is_invoice() {
            Ok(())
        } else {
            Err(
                AddressError::Other(
                    "Non-invoice addresses cannot be converted to invoice strings".to_string(),
                ),
            )
        }
    }

    /// What the signer that gave this key has to sign for this invoice.
    pub fn digest_to_sign(&self, signer_key: &Result<PublicKey, String>) -> (res: Result<
        Vec<u8>,
        AddressError,
    >)
        ensures
            match (res, invoice_digest(self@, key_view(*signer_key))) {
                (Ok(h), Ok(model)) => h@ == model && h@.len() == 32,
                (Err(e), Err(f)) => e@ == f,
                _ => false,
            },
    {
        match &self.spark_invoice_fields {
            None => Err(
                AddressError::Other(
                    "Non-invoice addresses cannot be converted to invoice strings".to_string(),
                ),
            ),
            Some(f) => {
                let key = match signer_key {
                    Ok(k) => k,
                    Err(e) => {
                        return Err(
                            AddressError::Other(
                                join("Failed to get identity public key: ", e.as_str()),
                            ),
                        );
                    },
                };
                if self.identity_public_key != *key {
                    return Err(
                        AddressError::Other(
                            "Cannot sign invoice for a different identity".to_string(),
                        ),
                    );
                }
                match f.to_message() {
                    Err(e) => Err(e),
                    Ok(_) => self.compute_invoice_hash(),
                }
            },
        }
    }

    /// The error where the signer would not sign.
    pub fn signing_failure(e: &str) -> (res: AddressError)
        ensures
            res@ == AddressFault::Other("Failed to sign invoice hash: "@ + e@),
    {
        AddressError::Other(join("Failed to sign invoice hash: ", e))
    }

    fn signed_message(&self, signature: &Vec<u8>) -> (res: Result<AddressMessage, AddressError>)
        ensures
            match (res, invoice_message(self@, signature@)) {
                (Ok(m), Ok(model)) => m@ == model && is_well_formed(self@.invoice->0)
                    && is_public_key(self@.identity_public_key),
                (Err(e), Err(f)) => e@ == f,
                _ => false,
            },
    {
        match &self.spark_invoice_fields {
            None => Err(
                AddressError::Other(
                    "Non-invoice addresses cannot be converted to invoice strings".to_string(),
                ),
            ),
            Some(f) => match f.to_message() {
                Err(e) => Err(e),
                Ok(m) => {
                    let message = AddressMessage {
                        identity_public_key: self.identity_public_key.serialize(),
                        spark_invoice_fields: Some(m),
                        signature: Some(copy_bytes(signature.as_slice())),
                    };
                    Ok(message)
                },
            },
        }
    }

    /// The text of the invoice with a signature; an error where it would be too long
    /// for its checksum. Where the signature is the issuer's and the text can hold all
    /// of the invoice, the text stands for this invoice.
    pub fn invoice_string_with_signature(&self, signature: &Vec<u8>) -> (res: Result<
        String,
        AddressError,
    >)
        ensures
            match (res, invoice_text(self@, signature@)) {
                (Ok(t), Ok(model)) => {
                    &&& t@ == model
                    &&& (address_prefix(self@.network) + "1"@).is_prefix_of(t@)
                    &&& signature@.len() == 64 && is_restorable(self@.invoice->0, self@.network)
                        ==> address_of_text(t@) == Some(signed_address(self@, Some(signature@)))
                },
                (Err(e), Err(f)) => e@ == f,
                _ => false,
            },
            res is Ok <==> invoice_message(self@, signature@) is Ok && invoice_fits(
                self@,
                signature@,
            ),
    {
        let message = match self.signed_message(signature) {
            Err(e) => {
                return Err(e);
            },
            Ok(m) => m,
        };
        let payload = encode_spark_address_canonical(&message);
        proof {
            lower_keeps_prefix(self.network);
            network_of_own_prefix(self.network, address_prefix(self.network));
            assert(payload.len() == address_bytes(message@).len());
            decoded_address_of_address_bytes(message@);
            if is_restorable(self@.invoice->0, self@.network) {
                invoice_reads_back(self@.invoice->0, self@.network);
            }
        }
        match bech32m_encode(Self::network_to_hrp(&self.network), payload.as_slice()) {
            Ok(t) => Ok(t),
            Err(e) => Err(AddressError::Bech32EncodeError(e)),
        }
    }
}

/// Whether a signature is one of the digest by the issuer, and the outcome is that
/// of writing the invoice with it.
pub open spec fn is_signed_outcome(
    res: Result<String, AddressError>,
    a: AddressValue,
    digest: Seq<u8>,
    signature: Seq<u8>,
) -> bool {
    &&& signature.len() == 64
    &&& schnorr_verifies(signature, digest, a.identity_public_key)
    &&& match (res, invoice_text(a, signature)) {
        (Ok(t), Ok(model)) => t@ == model,
        (Err(e), Err(f)) => e@ == f,
        _ => false,
    }
}

/// What holds of the outcome of writing an invoice: the error before it is signed,
/// or what comes of it with some signature by the issuer. There is a text exactly
/// where it stays within what a checksum covers, which no signature changes; it
/// starts with the network's prefix and, where it can hold all of the invoice,
/// stands for it.
pub open spec fn is_invoice_outcome(
    res: Result<String, AddressError>,
    a: AddressValue,
    signer_key: Seq<u8>,
) -> bool {
    match invoice_digest(a, Ok(signer_key)) {
        Err(f) => res matches Err(e) && e@ == f,
        Ok(digest) => {
            &&& exists|signature: Seq<u8>| #[trigger] is_signed_outcome(res, a, digest, signature)
            &&& res is Ok <==> invoice_fits(a, zeros(64))
            &&& res matches Err(e) ==> e@ is Bech32EncodeError
            &&& res matches Ok(t) ==> (address_prefix(a.network) + "1"@).is_prefix_of(t@)
            &&& res matches Ok(t) ==> is_restorable(a.invoice->0, a.network) ==> address_of_text(t@)
                == Some(Ok::<AddressValue, AddressFault>(a))
        },
    }
}

proof fn lemma_fits_by_length(a: AddressValue, s: Seq<u8>, t: Seq<u8>)
    requires
        s.len() == t.len(),
    ensures
        invoice_fits(a, s) == invoice_fits(a, t),
{
}

impl SparkAddress {
    /// The text of the invoice, signed by its issuer.
    pub fn to_invoice_string(&self, signer: &DefaultSigner) -> (res: Result<String, AddressError>)
        ensures
            is_invoice_outcome(res, self@, secp_public_key_of(signer@.identity_secret)),
    {
        if let Err(e) = self.check_invoice() {
            return Err(e);
        }
        let key = match signer.get_identity_public_key() {
            Ok(k) => Ok(k),
            Err(_) => Err(String::new()),
        };
        let digest = match self.digest_to_sign(&key) {
            Ok(d) => d,
            Err(e) => {
                return Err(e);
            },
        };
        let signature = match signer.sign_hash_schnorr_with_identity_key(&digest) {
            Ok(s) => s,
            Err(_) => {
                return Err(Self::signing_failure(""));
            },
        };
        let res = self.invoice_string_with_signature(&signature);
        proof {
            lemma_fits_by_length(self@, signature@, zeros(64));
            assert(is_signed_outcome(res, self@, digest@, signature@));
        }
        res
    }
}

/// The text of a signed invoice carries its issuer, its fields and the signature, under
/// its network's prefix.
pub proof fn invoice_texts_carry_everything(a: AddressValue, signature: Seq<u8>)
    ensures
        invoice_text(a, signature) matches Ok(t) ==> {
            &&& a.invoice is Some
            &&& fields_message(a.invoice->0) matches Ok(fields)
            &&& bech32m_encoded(
                address_prefix(a.network),
                address_bytes(
                    AddressModel {
                        identity_public_key: a.identity_public_key,
                        spark_invoice_fields: Some(fields),
                        signature: Some(signature),
                    },
                ),
            ) == Ok::<Seq<char>, Seq<char>>(t)
        },
        a.invoice is None ==> invoice_text(a, signature) is Err,
{
}

/// What is signed is the invoice's hash, and only by its issuer.
pub proof fn only_the_issuer_signs(a: AddressValue, key: Seq<u8>, e: Seq<char>)
    ensures
        invoice_digest(a, Ok(key)) matches Ok(digest) ==> {
            &&& a.identity_public_key == key
            &&& invoice_hash(a) == Ok::<Seq<u8>, AddressFault>(digest)
            &&& a.invoice is Some
        },
        a.invoice matches Some(f) ==> fields_message(f) is Ok && a.identity_public_key == key
            ==> invoice_digest(a, Ok(key)) == invoice_hash(a),
        a.invoice is Some && a.identity_public_key != key ==> invoice_digest(a, Ok(key)) == Err::<
            Seq<u8>,
            AddressFault,
        >(AddressFault::Other("Cannot sign invoice for a different identity"@)),
        a.invoice is Some ==> invoice_digest(a, Err(e)) is Err,
        a.invoice is None ==> invoice_digest(a, Ok(key)) is Err,
{
}

} // verus!

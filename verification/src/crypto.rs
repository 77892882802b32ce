//! Operations of a session on messages: signing and verifying, encrypting
//! and decrypting, and what a session sets for the signatures it makes.

use crate::context::lists;
use crate::context::some_unless_empty;
use crate::context::Context;
use crate::context::Operation;
use crate::cursor::Signers;
use crate::engine::handles_of;
use crate::engine::key_handles;
use crate::engine::Data;
use crate::engine::EngineCall;
use crate::engine::Extract;
use crate::engine::Key;
use crate::engine::ResultKind;
use crate::engine::SignatureNotation;
use crate::flags::AuditLogFlags;
use crate::flags::DecryptFlags;
use crate::flags::EncryptFlags;
use crate::flags::SignMode;
use crate::flags::SignatureNotationFlags;
use crate::flags::DECRYPT_VERIFY;
use crate::flags::SIG_NOTATION_CRITICAL;
use crate::text::text_of;
use vstd::prelude::*;
use vstd::string::StringSliceAdditionalSpecFns;
use vstd::utf8::valid_utf8;

verus! {

/// The place of the first notation without a name among `notations`, or
/// their number where each has a name.
pub open spec fn first_policy(notations: Seq<SignatureNotation>) -> int
    decreases notations.len(),
{
    if notations.len() == 0 {
        0
    } else if notations[0].name is None {
        0
    } else {
        1 + first_policy(notations.subrange(1, notations.len() as int))
    }
}

/// The first notation without a name is at a place within the list or just
/// behind it, each notation before it has a name, and it has none itself.
pub proof fn lemma_first_policy(notations: Seq<SignatureNotation>)
    ensures
        0 <= first_policy(notations) <= notations.len(),
        forall|i: int| 0 <= i < first_policy(notations) ==> (#[trigger] notations[i]).name is Some,
        first_policy(notations) < notations.len() ==> notations[first_policy(notations)].name
            is None,
    decreases notations.len(),
{
    if notations.len() > 0 && notations[0].name is Some {
        let rest = notations.subrange(1, notations.len() as int);
        lemma_first_policy(rest);
        assert forall|i: int| 0 <= i < first_policy(notations) implies (
        #[trigger] notations[i]).name is Some by {
            if i > 0 {
                assert(notations[i] == rest[i - 1]);
            }
        }
        if first_policy(notations) < notations.len() {
            assert(notations[first_policy(notations)] == rest[first_policy(rest)]);
        }
    }
}

/// The policy address among `notations`: the value of the first notation
/// without a name, where there is such a notation and it has a value.
pub open spec fn policy_url_of(notations: Seq<SignatureNotation>) -> Option<Seq<u8>> {
    let at = first_policy(notations);
    if at < notations.len() {
        match notations[at].value {
            Some(value) => Some(value@),
            None => None,
        }
    } else {
        None
    }
}

impl Context {
    /// The call that takes the sender's address from the session.
    pub fn clear_sender(&self) -> (op: Operation)
        ensures
            op == (Operation {
                call: EngineCall::SetSender { address: None },
                results: Extract::Nothing,
            }),
    {
        Operation { call: EngineCall::SetSender { address: None }, results: Extract::Nothing }
    }

    /// The call that sets the sender's address.
    pub fn set_sender(&self, sender: Vec<u8>) -> (op: Operation)
        ensures
            op == (Operation {
                call: EngineCall::SetSender { address: Some(sender) },
                results: Extract::Nothing,
            }),
    {
        Operation { call: EngineCall::SetSender { address: Some(sender) }, results: Extract::Nothing }
    }

    /// The sender's address as text, from what the engine holds for it.
    pub fn sender<'a>(&self, raw: Option<&'a [u8]>) -> (r: Result<
        &'a str,
        Option<core::str::Utf8Error>,
    >)
        ensures
            r is Ok <==> (raw matches Some(bytes) && valid_utf8(bytes@)),
            r matches Ok(text) ==> text.spec_bytes() == raw->Some_0@,
            r matches Err(cause) ==> (cause is None <==> raw is None),
    {
        text_of(raw)
    }

    /// The call that empties the list of signers.
    pub fn clear_signers(&self) -> (call: EngineCall)
        ensures
            call == EngineCall::SignersClear,
    {
        EngineCall::SignersClear
    }

    /// The call that adds `key` to the list of signers.
    pub fn add_signer(&self, key: &Key) -> (op: Operation)
        ensures
            op == (Operation {
                call: EngineCall::SignersAdd { key: key.raw },
                results: Extract::Nothing,
            }),
    {
        Operation { call: EngineCall::SignersAdd { key: key.as_raw() }, results: Extract::Nothing }
    }

    /// A cursor over the signers of the session, at the first of them. An
    /// engine older than 1.5 cannot say how many signers it holds.
    pub fn signers(&self) -> (s: Signers)
        ensures
            s.current == Some(0 as libc::c_int),
            s.counted == self.offers(1, 5),
            s.wf(),
    {
        Signers::new(self.supports(1, 5))
    }

    /// The call that takes every notation from the session.
    pub fn clear_signature_notations(&self) -> (call: EngineCall)
        ensures
            call == EngineCall::SigNotationClear,
    {
        EngineCall::SigNotationClear
    }

    /// The call that adds the notation `name` with the value `value`.
    pub fn add_signature_notation(
        &self,
        name: Vec<u8>,
        value: Vec<u8>,
        flags: SignatureNotationFlags,
    ) -> (op: Operation)
        ensures
            op == (Operation {
                call: EngineCall::SigNotationAdd { name: Some(name), value, flags: flags.0 },
                results: Extract::Nothing,
            }),
    {
        Operation {
            call: EngineCall::SigNotationAdd { name: Some(name), value, flags: flags.bits() },
            results: Extract::Nothing,
        }
    }

    /// The call that adds the policy address `url`: a notation without a
    /// name, marked critical where `critical` is set and not marked
    /// otherwise.
    pub fn add_signature_policy_url(&self, url: Vec<u8>, critical: bool) -> (op: Operation)
        ensures
            op == (Operation {
                call: EngineCall::SigNotationAdd {
                    name: None,
                    value: url,
                    flags: if critical {
                        SIG_NOTATION_CRITICAL
                    } else {
                        0
                    },
                },
                results: Extract::Nothing,
            }),
    {
        let flags: u32 = if critical {
            SIG_NOTATION_CRITICAL
        } else {
            0
        };
        Operation {
            call: EngineCall::SigNotationAdd { name: None, value: url, flags },
            results: Extract::Nothing,
        }
    }

    /// The policy address among the notations of the session: the value of
    /// the first notation without a name.
    pub fn signature_policy_url_raw<'a>(&self, notations: &'a Vec<SignatureNotation>) -> (r: Option<
        &'a [u8],
    >)
        ensures
            r is Some == policy_url_of(notations@) is Some,
            r matches Some(url) ==> url@ == policy_url_of(notations@)->Some_0,
    {
        let mut i: usize = 0;
        proof {
            lemma_first_policy(notations@);
        }
        while i < notations.len()
            invariant
                i <= notations.len(),
                i <= first_policy(notations@),
                forall|j: int| 0 <= j < i ==> (#[trigger] notations@[j]).name is Some,
            decreases notations.len() - i,
        {
            proof {
                lemma_first_policy(notations@);
            }
            if notations[i].name.is_none() {
                assert(first_policy(notations@) == i);
                return match &notations[i].value {
                    Some(value) => Some(value.as_slice()),
                    None => None,
                };
            }
            i += 1;
        }
        proof {
            lemma_first_policy(notations@);
        }
        None
    }

    /// The policy address among the notations of the session as text.
    pub fn signature_policy_url<'a>(&self, notations: &'a Vec<SignatureNotation>) -> (r: Result<
        &'a str,
        Option<core::str::Utf8Error>,
    >)
        ensures
            r is Ok <==> (policy_url_of(notations@) matches Some(bytes) && valid_utf8(bytes)),
            r matches Ok(text) ==> text.spec_bytes() == policy_url_of(notations@)->Some_0,
            r matches Err(cause) ==> (cause is None <==> policy_url_of(notations@) is None),
    {
        text_of(self.signature_policy_url_raw(notations))
    }

    /// The call that signs `plaintext` into `signedtext` as a clear text
    /// signature.
    pub fn sign_clear(&self, plaintext: &Data, signedtext: &Data) -> (op: Operation)
        ensures
            op == (Operation {
                call: EngineCall::Sign { plain: plaintext.0, signature: signedtext.0, mode: 2 },
                results: Extract::One(ResultKind::Signing),
            }),
    {
        self.sign(SignMode::Clear, plaintext, signedtext)
    }

    /// The call that writes a detached signature of `plaintext` to
    /// `signature`.
    pub fn sign_detached(&self, plaintext: &Data, signature: &Data) -> (op: Operation)
        ensures
            op == (Operation {
                call: EngineCall::Sign { plain: plaintext.0, signature: signature.0, mode: 1 },
                results: Extract::One(ResultKind::Signing),
            }),
    {
        self.sign(SignMode::Detached, plaintext, signature)
    }

    /// The call that signs `plaintext` into `signedtext`.
    pub fn sign_normal(&self, plaintext: &Data, signedtext: &Data) -> (op: Operation)
        ensures
            op == (Operation {
                call: EngineCall::Sign { plain: plaintext.0, signature: signedtext.0, mode: 0 },
                results: Extract::One(ResultKind::Signing),
            }),
    {
        self.sign(SignMode::Normal, plaintext, signedtext)
    }

    /// The call that signs `plaintext` into `signature` in the form
    /// `mode`; the result of the signing is read afterwards.
    pub fn sign(&self, mode: SignMode, plaintext: &Data, signature: &Data) -> (op: Operation)
        ensures
            op == (Operation {
                call: EngineCall::Sign {
                    plain: plaintext.0,
                    signature: signature.0,
                    mode: mode.number(),
                },
                results: Extract::One(ResultKind::Signing),
            }),
    {
        Operation {
            call: EngineCall::Sign {
                plain: plaintext.as_raw(),
                signature: signature.as_raw(),
                mode: mode.raw(),
            },
            results: Extract::One(ResultKind::Signing),
        }
    }

    /// The call that verifies the detached signature `signature` of
    /// `signedtext`.
    pub fn verify_detached(&self, signature: &Data, signedtext: &Data) -> (op: Operation)
        ensures
            op == (Operation {
                call: EngineCall::Verify {
                    signature: signature.0,
                    signed_text: Some(signedtext.0),
                    plain: None,
                },
                results: Extract::One(ResultKind::Verification),
            }),
    {
        self.verify(signature, Some(signedtext), None)
    }

    /// The call that verifies the signed message `signedtext` and writes
    /// what was signed to `plaintext`.
    pub fn verify_opaque(&self, signedtext: &Data, plaintext: &Data) -> (op: Operation)
        ensures
            op == (Operation {
                call: EngineCall::Verify {
                    signature: signedtext.0,
                    signed_text: None,
                    plain: Some(plaintext.0),
                },
                results: Extract::One(ResultKind::Verification),
            }),
    {
        self.verify(signedtext, None, Some(plaintext))
    }

    /// The call that verifies `signature`; the result of the verification
    /// is read afterwards.
    fn verify(&self, signature: &Data, signedtext: Option<&Data>, plaintext: Option<&Data>) -> (op:
        Operation)
        ensures
            op == (Operation {
                call: EngineCall::Verify {
                    signature: signature.0,
                    signed_text: match signedtext {
                        Some(data) => Some(data.0),
                        None => None,
                    },
                    plain: match plaintext {
                        Some(data) => Some(data.0),
                        None => None,
                    },
                },
                results: Extract::One(ResultKind::Verification),
            }),
    {
        let signed_text = match signedtext {
            Some(data) => Some(data.as_raw()),
            None => None,
        };
        let plain = match plaintext {
            Some(data) => Some(data.as_raw()),
            None => None,
        };
        Operation {
            call: EngineCall::Verify { signature: signature.as_raw(), signed_text, plain },
            results: Extract::One(ResultKind::Verification),
        }
    }

    /// The call that encrypts `plaintext` into `ciphertext` for `recp`,
    /// without flags.
    pub fn encrypt(&self, recp: &Vec<Key>, plaintext: &Data, ciphertext: &Data) -> (op: Operation)
        ensures
            encrypts(op, handles_of(recp@), 0, plaintext.0, ciphertext.0),
    {
        self.encrypt_with_flags(recp, plaintext, ciphertext, EncryptFlags::empty())
    }

    /// The call that encrypts `plaintext` into `ciphertext` for `recp`, or
    /// with a passphrase where there is no recipient; the result of the
    /// encryption is read afterwards.
    pub fn encrypt_with_flags(
        &self,
        recp: &Vec<Key>,
        plaintext: &Data,
        ciphertext: &Data,
        flags: EncryptFlags,
    ) -> (op: Operation)
        ensures
            encrypts(op, handles_of(recp@), flags.0, plaintext.0, ciphertext.0),
    {
        Operation {
            call: EngineCall::Encrypt {
                recipients: some_unless_empty(key_handles(recp)),
                flags: flags.bits(),
                plain: plaintext.as_raw(),
                cipher: ciphertext.as_raw(),
            },
            results: Extract::One(ResultKind::Encryption),
        }
    }

    /// The call that encrypts `plaintext` into `ciphertext` with a
    /// passphrase, without flags. No result is read.
    pub fn encrypt_symmetric(&self, plaintext: &Data, ciphertext: &Data) -> (op: Operation)
        ensures
            op == (Operation {
                call: EngineCall::Encrypt {
                    recipients: None,
                    flags: 0,
                    plain: plaintext.0,
                    cipher: ciphertext.0,
                },
                results: Extract::Nothing,
            }),
    {
        self.encrypt_symmetric_with_flags(plaintext, ciphertext, EncryptFlags::empty())
    }

    /// The call that encrypts `plaintext` into `ciphertext` with a
    /// passphrase. No result is read.
    pub fn encrypt_symmetric_with_flags(&self, plaintext: &Data, ciphertext: &Data, flags: EncryptFlags)
        -> (op: Operation)
        ensures
            op == (Operation {
                call: EngineCall::Encrypt {
                    recipients: None,
                    flags: flags.0,
                    plain: plaintext.0,
                    cipher: ciphertext.0,
                },
                results: Extract::Nothing,
            }),
    {
        Operation {
            call: EngineCall::Encrypt {
                recipients: None,
                flags: flags.bits(),
                plain: plaintext.as_raw(),
                cipher: ciphertext.as_raw(),
            },
            results: Extract::Nothing,
        }
    }

    /// The call that signs `plaintext` and encrypts it into `ciphertext`
    /// for `recp`, without flags.
    pub fn sign_and_encrypt(&self, recp: &Vec<Key>, plaintext: &Data, ciphertext: &Data) -> (op:
        Operation)
        ensures
            signs_and_encrypts(op, handles_of(recp@), 0, plaintext.0, ciphertext.0),
    {
        self.sign_and_encrypt_with_flags(recp, plaintext, ciphertext, EncryptFlags::empty())
    }

    /// The call that signs `plaintext` and encrypts it into `ciphertext`
    /// for `recp`. The result of the encryption is read first, that of the
    /// signing second.
    pub fn sign_and_encrypt_with_flags(
        &self,
        recp: &Vec<Key>,
        plaintext: &Data,
        ciphertext: &Data,
        flags: EncryptFlags,
    ) -> (op: Operation)
        ensures
            signs_and_encrypts(op, handles_of(recp@), flags.0, plaintext.0, ciphertext.0),
    {
        Operation {
            call: EngineCall::EncryptSign {
                recipients: some_unless_empty(key_handles(recp)),
                flags: flags.bits(),
                plain: plaintext.as_raw(),
                cipher: ciphertext.as_raw(),
            },
            results: Extract::Two(ResultKind::Encryption, ResultKind::Signing),
        }
    }

    /// The call that decrypts `ciphertext` into `plaintext`; the result of
    /// the decryption is read afterwards.
    pub fn decrypt(&self, ciphertext: &Data, plaintext: &Data) -> (op: Operation)
        ensures
            op == (Operation {
                call: EngineCall::Decrypt { cipher: ciphertext.0, plain: plaintext.0 },
                results: Extract::One(ResultKind::Decryption),
            }),
    {
        Operation {
            call: EngineCall::Decrypt { cipher: ciphertext.as_raw(), plain: plaintext.as_raw() },
            results: Extract::One(ResultKind::Decryption),
        }
    }

    /// The call that decrypts `ciphertext` into `plaintext` as `flags`
    /// say; the result of the decryption is read afterwards.
    pub fn decrypt_with_flags(&self, ciphertext: &Data, plaintext: &Data, flags: DecryptFlags) -> (op:
        Operation)
        ensures
            op == (Operation {
                call: EngineCall::DecryptExt {
                    flags: flags.0,
                    cipher: ciphertext.0,
                    plain: plaintext.0,
                },
                results: Extract::One(ResultKind::Decryption),
            }),
    {
        Operation {
            call: EngineCall::DecryptExt {
                flags: flags.bits(),
                cipher: ciphertext.as_raw(),
                plain: plaintext.as_raw(),
            },
            results: Extract::One(ResultKind::Decryption),
        }
    }

    /// The call that decrypts `ciphertext` into `plaintext` and verifies
    /// the signatures on it. The result of the decryption is read first,
    /// that of the verification second.
    pub fn decrypt_and_verify(&self, ciphertext: &Data, plaintext: &Data) -> (op: Operation)
        ensures
            op == (Operation {
                call: EngineCall::DecryptVerify { cipher: ciphertext.0, plain: plaintext.0 },
                results: Extract::Two(ResultKind::Decryption, ResultKind::Verification),
            }),
    {
        Operation {
            call: EngineCall::DecryptVerify {
                cipher: ciphertext.as_raw(),
                plain: plaintext.as_raw(),
            },
            results: Extract::Two(ResultKind::Decryption, ResultKind::Verification),
        }
    }

    /// The call that decrypts `ciphertext` into `plaintext` as `flags`
    /// say, and verifies the signatures on it whether or not `flags` ask
    /// for that. The result of the decryption is read first, that of the
    /// verification second.
    pub fn decrypt_and_verify_with_flags(&self, ciphertext: &Data, plaintext: &Data, flags: DecryptFlags)
        -> (op: Operation)
        ensures
            op == (Operation {
                call: EngineCall::DecryptExt {
                    flags: flags.0 | DECRYPT_VERIFY,
                    cipher: ciphertext.0,
                    plain: plaintext.0,
                },
                results: Extract::Two(ResultKind::Decryption, ResultKind::Verification),
            }),
    {
        Operation {
            call: EngineCall::DecryptExt {
                flags: flags.union(DecryptFlags(DECRYPT_VERIFY)).bits(),
                cipher: ciphertext.as_raw(),
                plain: plaintext.as_raw(),
            },
            results: Extract::Two(ResultKind::Decryption, ResultKind::Verification),
        }
    }

    /// The call that asks the software database about the package `name`,
    /// which is installed in the version `installed_ver`; the answer is
    /// read afterwards.
    pub fn query_swdb(&self, name: Option<Vec<u8>>, installed_ver: Option<Vec<u8>>) -> (op: Operation)
        ensures
            op == (Operation {
                call: EngineCall::QuerySwdb { name, installed_version: installed_ver, reserved: 0 },
                results: Extract::One(ResultKind::QuerySwdb),
            }),
    {
        Operation {
            call: EngineCall::QuerySwdb { name, installed_version: installed_ver, reserved: 0 },
            results: Extract::One(ResultKind::QuerySwdb),
        }
    }

    /// The call that writes the audit log of the last operation to `dst`.
    pub fn get_audit_log(&self, dst: &Data, flags: AuditLogFlags) -> (op: Operation)
        ensures
            op == (Operation {
                call: EngineCall::GetAuditLog { output: dst.0, flags: flags.0 },
                results: Extract::Nothing,
            }),
    {
        Operation {
            call: EngineCall::GetAuditLog { output: dst.as_raw(), flags: flags.bits() },
            results: Extract::Nothing,
        }
    }
}

/// Whether `op` encrypts the stream `plain` into the stream `cipher` for
/// the keys `recipients` under `flags`, and reads the result of the
/// encryption.
pub open spec fn encrypts(op: Operation, recipients: Seq<usize>, flags: u32, plain: usize, cipher: usize)
    -> bool {
    op.call matches EngineCall::Encrypt { recipients: list, flags: given, plain: from, cipher: to }
        && lists(list, recipients) && given == flags && from == plain && to == cipher && op.results
        == Extract::One(ResultKind::Encryption)
}

/// Whether `op` signs the stream `plain` and encrypts it into the stream
/// `cipher` for the keys `recipients` under `flags`, and reads the result
/// of the encryption first and that of the signing second.
pub open spec fn signs_and_encrypts(
    op: Operation,
    recipients: Seq<usize>,
    flags: u32,
    plain: usize,
    cipher: usize,
) -> bool {
    op.call matches EngineCall::EncryptSign {
        recipients: list,
        flags: given,
        plain: from,
        cipher: to,
    } && lists(list, recipients) && given == flags && from == plain && to == cipher && op.results
        == Extract::Two(ResultKind::Encryption, ResultKind::Signing)
}

} // verus!

//! The stored salts: what is stored of one, and what the table keeps.

use vstd::prelude::*;
use vstd::string::*;

use crate::models::{JwtClaims, UserSalt};

verus! {

/// The version of the encryption with which salts are stored.
pub const ENCRYPTION_VERSION: i32 = 1;

/// A salt that is to be stored, encrypted.
#[derive(Debug, Clone)]
pub struct NewUserSalt {
    pub user_identifier: String,
    pub iss: String,
    pub aud: String,
    pub sub: String,
    pub encrypted_salt: Vec<u8>,
    pub encryption_version: i32,
}

/// What is stored of a salt.
pub struct SaltRow {
    pub user_identifier: Seq<char>,
    pub iss: Seq<char>,
    pub aud: Seq<char>,
    pub sub: Seq<char>,
    pub encrypted_salt: Seq<u8>,
    pub encryption_version: int,
}

impl View for NewUserSalt {
    type V = SaltRow;

    open spec fn view(&self) -> SaltRow {
        SaltRow {
            user_identifier: self.user_identifier@,
            iss: self.iss@,
            aud: self.aud@,
            sub: self.sub@,
            encrypted_salt: self.encrypted_salt@,
            encryption_version: self.encryption_version as int,
        }
    }
}

/// What a stored row says of its salt, apart from its ID and its times.
pub open spec fn row_of(stored: UserSalt) -> SaltRow {
    SaltRow {
        user_identifier: stored.user_identifier@,
        iss: stored.iss@,
        aud: stored.aud@,
        sub: stored.sub@,
        encrypted_salt: stored.encrypted_salt@,
        encryption_version: stored.encryption_version as int,
    }
}

/// The row of a new salt.
pub open spec fn new_row(user_identifier: Seq<char>, claims: JwtClaims, encrypted: Seq<u8>) -> SaltRow {
    SaltRow {
        user_identifier,
        iss: claims.iss@,
        aud: claims.aud@,
        sub: claims.sub@,
        encrypted_salt: encrypted,
        encryption_version: ENCRYPTION_VERSION as int,
    }
}

/// The row of a new salt.
pub fn new_user_salt(user_identifier: &str, claims: &JwtClaims, encrypted: &Vec<u8>) -> (r:
    NewUserSalt)
    ensures
        r@ == new_row(user_identifier@, *claims, encrypted@),
{
    let encrypted_salt = encrypted.clone();
    assert(encrypted_salt@ =~= encrypted@);
    NewUserSalt {
        user_identifier: user_identifier.to_owned(),
        iss: claims.iss.clone(),
        aud: claims.aud.clone(),
        sub: claims.sub.clone(),
        encrypted_salt,
        encryption_version: ENCRYPTION_VERSION,
    }
}

/// The table of salts, by the identifier of the user.
#[verifier::ext_equal]
pub struct SaltTable {
    pub rows: Map<Seq<char>, SaltRow>,
}

impl SaltTable {
    /// The row of a user, if there is one.
    pub open spec fn find(self, user: Seq<char>) -> Option<SaltRow> {
        if self.rows.dom().contains(user) {
            Some(self.rows[user])
        } else {
            None
        }
    }

    /// The table after a request to store a row: a user who has one keeps it.
    pub open spec fn after_store(self, row: SaltRow) -> SaltTable {
        if self.rows.dom().contains(row.user_identifier) {
            self
        } else {
            SaltTable { rows: self.rows.insert(row.user_identifier, row) }
        }
    }

    /// The table after requests to store rows, one after the other.
    pub open spec fn after_stores(self, rows: Seq<SaltRow>) -> SaltTable
        decreases rows.len(),
    {
        if rows.len() == 0 {
            self
        } else {
            self.after_stores(rows.drop_last()).after_store(rows.last())
        }
    }
}

/// A user who has a row keeps it, whatever is stored.
pub proof fn law_rows_are_kept(table: SaltTable, rows: Seq<SaltRow>, user: Seq<char>)
    requires
        table.find(user) is Some,
    ensures
        table.after_stores(rows).find(user) == table.find(user),
    decreases rows.len(),
{
    if rows.len() > 0 {
        law_rows_are_kept(table, rows.drop_last(), user);
    }
}

/// How a request came by the salt of a user: the row that its lookup found, or else the row that
/// it asked to store and the one that the table then had, and what decrypting that row gave.
pub struct SaltAccess {
    pub user: Seq<char>,
    pub found: Option<SaltRow>,
    pub stored: Option<(SaltRow, SaltRow)>,
    pub salt: Seq<u8>,
}

impl SaltAccess {
    /// The request stores where it found nothing, and only a row of its user.
    pub open spec fn is_orderly(self) -> bool {
        match self.stored {
            Some((asked, _)) => self.found is None && asked.user_identifier == self.user,
            None => self.found is Some,
        }
    }

    /// The request meets this table at its lookup; other requests store `during` before it stores
    /// itself. `decrypt` is what decryption gives for stored bytes.
    pub open spec fn happens(
        self,
        table: SaltTable,
        during: Seq<SaltRow>,
        decrypt: spec_fn(Seq<u8>) -> Option<Seq<u8>>,
    ) -> bool {
        &&& self.found == table.find(self.user)
        &&& self.found matches Some(row) ==> decrypt(row.encrypted_salt) == Some(self.salt)
        &&& self.stored matches Some((asked, got)) ==> {
            &&& table.after_stores(during).after_store(asked).find(self.user) == Some(got)
            &&& decrypt(got.encrypted_salt) == Some(self.salt)
        }
    }

    /// The table when the request is done.
    pub open spec fn table_after(self, table: SaltTable, during: Seq<SaltRow>) -> SaltTable {
        match self.stored {
            Some((asked, _)) => table.after_stores(during).after_store(asked),
            None => table.after_stores(during),
        }
    }
}

/// A request that came by a salt leaves a row of its user behind, and its salt is the decryption
/// of that row.
pub proof fn law_access_leaves_row(
    access: SaltAccess,
    table: SaltTable,
    during: Seq<SaltRow>,
    decrypt: spec_fn(Seq<u8>) -> Option<Seq<u8>>,
)
    requires
        access.is_orderly(),
        access.happens(table, during, decrypt),
    ensures
        access.table_after(table, during).find(access.user) matches Some(row) && decrypt(
            row.encrypted_salt,
        ) == Some(access.salt),
{
    if access.found is Some {
        law_rows_are_kept(table, during, access.user);
    }
}

/// A user keeps the salt: a later request for the same user comes by the same salt and stores
/// nothing, whatever others store meanwhile.
pub proof fn law_later_access_agrees(
    first: SaltAccess,
    second: SaltAccess,
    table: SaltTable,
    during_first: Seq<SaltRow>,
    between: Seq<SaltRow>,
    during_second: Seq<SaltRow>,
    decrypt: spec_fn(Seq<u8>) -> Option<Seq<u8>>,
)
    requires
        first.is_orderly(),
        second.is_orderly(),
        first.user == second.user,
        first.happens(table, during_first, decrypt),
        second.happens(
            first.table_after(table, during_first).after_stores(between),
            during_second,
            decrypt,
        ),
    ensures
        second.salt == first.salt,
        second.found is Some,
        second.stored is None,
{
    law_access_leaves_row(first, table, during_first, decrypt);
    law_rows_are_kept(first.table_after(table, during_first), between, first.user);
}

/// Two requests for the same user that overlap come by the same salt, too: where both tables that
/// they leave behind lead to one, by whatever is stored after each.
pub proof fn law_overlapping_accesses_agree(
    first: SaltAccess,
    second: SaltAccess,
    table_first: SaltTable,
    during_first: Seq<SaltRow>,
    after_first: Seq<SaltRow>,
    table_second: SaltTable,
    during_second: Seq<SaltRow>,
    after_second: Seq<SaltRow>,
    decrypt: spec_fn(Seq<u8>) -> Option<Seq<u8>>,
)
    requires
        first.is_orderly(),
        second.is_orderly(),
        first.user == second.user,
        first.happens(table_first, during_first, decrypt),
        second.happens(table_second, during_second, decrypt),
        first.table_after(table_first, during_first).after_stores(after_first)
            == second.table_after(table_second, during_second).after_stores(after_second),
    ensures
        first.salt == second.salt,
{
    law_access_leaves_row(first, table_first, during_first, decrypt);
    law_access_leaves_row(second, table_second, during_second, decrypt);
    law_rows_are_kept(first.table_after(table_first, during_first), after_first, first.user);
    law_rows_are_kept(second.table_after(table_second, during_second), after_second, first.user);
}

/// A new row is the user's, says what the claims say, and keeps the encrypted salt.
pub proof fn law_new_row_tells_the_claims(
    user_identifier: Seq<char>,
    claims: JwtClaims,
    encrypted: Seq<u8>,
)
    ensures
        ({
            let row = new_row(user_identifier, claims, encrypted);
            &&& row.user_identifier == user_identifier
            &&& row.iss == claims.iss@
            &&& row.aud == claims.aud@
            &&& row.sub == claims.sub@
            &&& row.encrypted_salt == encrypted
            &&& row.encryption_version == 1
        }),
{
}

/// Storing a row gives its user a row, the stored one where the user had none, and no other user's
/// row changes.
pub proof fn law_store_gives_a_row(table: SaltTable, row: SaltRow, other: Seq<char>)
    ensures
        table.after_store(row).find(row.user_identifier) == (match table.find(row.user_identifier) {
            Some(kept) => Some(kept),
            None => Some(row),
        }),
        other != row.user_identifier ==> table.after_store(row).find(other) == table.find(other),
{
}

/// A row says every field under its own name, one to store and one that is stored alike.
pub proof fn law_salt_rows_say_their_fields(new: NewUserSalt, stored: UserSalt)
    ensures
        new@.user_identifier == new.user_identifier@,
        new@.iss == new.iss@,
        new@.aud == new.aud@,
        new@.sub == new.sub@,
        new@.encrypted_salt == new.encrypted_salt@,
        new@.encryption_version == new.encryption_version,
        row_of(stored).user_identifier == stored.user_identifier@,
        row_of(stored).iss == stored.iss@,
        row_of(stored).aud == stored.aud@,
        row_of(stored).sub == stored.sub@,
        row_of(stored).encrypted_salt == stored.encrypted_salt@,
        row_of(stored).encryption_version == stored.encryption_version,
{
}

} // verus!

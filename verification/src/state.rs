//! The three records that the program keeps, each in its own account, and
//! their byte layout: fields at fixed places, integers least significant byte
//! first, nothing between the fields.

use crate::bytes::{
    copy_into, lemma_u64_from_le_bound, lemma_u64_from_le_zeros, lemma_u64_le_bytes_round_trip,
    lemma_u64_le_round_trip, push_u64, read_u64, u64_from_le, u64_to_le,
};
use crate::error::ProgramError;
use crate::pubkey::{zero_key, Pubkey};
use crate::uint::{
    lemma_u256_from_le_zeros, lemma_u256_le_bytes_round_trip, lemma_u256_le_round_trip,
    lemma_words, u256_from_le, u256_limit, u256_to_le, U256,
};
use vstd::prelude::*;

verus! {

/// Where a round stands.
#[derive(Clone, Copy, Debug, PartialEq, Eq, Structural)]
pub enum RoundStatus {
    /// The record is fresh: no round was started on it.
    Uninitialized,
    /// The round takes donations, projects and votes.
    Ongoing,
    /// The round is over: projects and the owner withdraw.
    Finished,
}

impl Default for RoundStatus {
    fn default() -> (status: RoundStatus)
        ensures
            status == RoundStatus::Uninitialized,
    {
        RoundStatus::Uninitialized
    }
}

impl RoundStatus {
    /// How far the status is along the life of a round.
    pub open spec fn rank(self) -> nat {
        match self {
            RoundStatus::Uninitialized => 0,
            RoundStatus::Ongoing => 1,
            RoundStatus::Finished => 2,
        }
    }

    /// The byte that stands for the status in a record.
    pub open spec fn byte(self) -> u8 {
        match self {
            RoundStatus::Uninitialized => 0,
            RoundStatus::Ongoing => 1,
            RoundStatus::Finished => 2,
        }
    }

    /// The status that a byte stands for, if any.
    pub open spec fn from_byte(byte: u8) -> Option<RoundStatus> {
        if byte == 0 {
            Some(RoundStatus::Uninitialized)
        } else if byte == 1 {
            Some(RoundStatus::Ongoing)
        } else if byte == 2 {
            Some(RoundStatus::Finished)
        } else {
            None
        }
    }

    /// The byte that stands for the status in a record.
    pub fn to_primitive(&self) -> (byte: u8)
        ensures
            byte == self.byte(),
    {
        match self {
            RoundStatus::Uninitialized => 0,
            RoundStatus::Ongoing => 1,
            RoundStatus::Finished => 2,
        }
    }

    /// The status that `byte` stands for, if any.
    pub fn try_from_primitive(byte: u8) -> (status: Option<RoundStatus>)
        ensures
            status == RoundStatus::from_byte(byte),
    {
        match byte {
            0 => Some(RoundStatus::Uninitialized),
            1 => Some(RoundStatus::Ongoing),
            2 => Some(RoundStatus::Finished),
            _ => None,
        }
    }
}

/// The byte that stands for a flag in a record.
pub open spec fn flag_byte(flag: bool) -> u8 {
    if flag {
        1
    } else {
        0
    }
}

/// The flag that a byte stands for, if any.
pub open spec fn flag_from_byte(byte: u8) -> Option<bool> {
    if byte == 0 {
        Some(false)
    } else if byte == 1 {
        Some(true)
    } else {
        None
    }
}

/// One funding round.
#[derive(Clone, Copy, Debug, PartialEq, Eq)]
pub struct Round {
    pub status: RoundStatus,
    /// The sum of the donations.
    pub fund: u64,
    /// The fees collected from withdrawals and not yet paid to the owner.
    pub fee: u64,
    /// The token account that holds the round's tokens.
    pub vault: Pubkey,
    /// Who ends the round and withdraws the fees.
    pub owner: Pubkey,
    /// The sum of the areas of the round's projects.
    pub area: U256,
}

/// What a `Round` holds.
pub struct RoundView {
    pub status: RoundStatus,
    pub fund: u64,
    pub fee: u64,
    pub vault: Seq<u8>,
    pub owner: Seq<u8>,
    pub area: nat,
}

impl RoundView {
    /// The addresses have 32 bytes and the area fits in 256 bits.
    pub open spec fn wf(self) -> bool {
        &&& self.vault.len() == 32
        &&& self.owner.len() == 32
        &&& self.area < u256_limit()
    }

    /// A round has been started on the record.
    pub open spec fn is_initialized(self) -> bool {
        self.status != RoundStatus::Uninitialized
    }

    /// The 113 bytes of the record.
    pub open spec fn bytes(self) -> Seq<u8> {
        seq![self.status.byte()] + u64_to_le(self.fund) + u64_to_le(self.fee) + self.vault
            + self.owner + u256_to_le(self.area)
    }

    /// The round that the bytes hold, where one has been started.
    pub open spec fn started_from_bytes(src: Seq<u8>) -> Result<RoundView, ProgramError> {
        match RoundView::from_bytes(src) {
            Ok(round) => if round.is_initialized() {
                Ok(round)
            } else {
                Err(ProgramError::UninitializedAccount)
            },
            Err(e) => Err(e),
        }
    }

    /// The record that 113 bytes hold; other lengths and an unknown status
    /// byte hold none.
    pub open spec fn from_bytes(src: Seq<u8>) -> Result<RoundView, ProgramError> {
        if src.len() != 113 {
            Err(ProgramError::InvalidAccountData)
        } else {
            match RoundStatus::from_byte(src[0]) {
                None => Err(ProgramError::InvalidAccountData),
                Some(status) => Ok(
                    RoundView {
                        status,
                        fund: u64_from_le(src.subrange(1, 9)) as u64,
                        fee: u64_from_le(src.subrange(9, 17)) as u64,
                        vault: src.subrange(17, 49),
                        owner: src.subrange(49, 81),
                        area: u256_from_le(src.subrange(81, 113)),
                    },
                ),
            }
        }
    }
}

impl View for Round {
    type V = RoundView;

    open spec fn view(&self) -> RoundView {
        RoundView {
            status: self.status,
            fund: self.fund,
            fee: self.fee,
            vault: self.vault@,
            owner: self.owner@,
            area: self.area@,
        }
    }
}

/// The view of a decoded round.
pub open spec fn round_result(decoded: Result<Round, ProgramError>) -> Result<
    RoundView,
    ProgramError,
> {
    match decoded {
        Ok(round) => Ok(round@),
        Err(e) => Err(e),
    }
}

impl Default for Round {
    /// A record on which no round was started, with nothing in it.
    fn default() -> (round: Round)
        ensures
            round@ == empty_round(),
    {
        Round {
            status: RoundStatus::Uninitialized,
            fund: 0,
            fee: 0,
            vault: Pubkey::default(),
            owner: Pubkey::default(),
            area: U256::zero(),
        }
    }
}

impl Round {
    /// The length of the record in bytes.
    pub const LEN: usize = 113;

    /// A round has been started on the record.
    pub fn is_initialized(&self) -> (started: bool)
        ensures
            started == self@.is_initialized(),
    {
        match self.status {
            RoundStatus::Uninitialized => false,
            _ => true,
        }
    }

    /// Decodes a record.
    pub fn unpack_from_slice(src: &[u8]) -> (decoded: Result<Round, ProgramError>)
        ensures
            round_result(decoded) == RoundView::from_bytes(src@),
    {
        if src.len() != 113 {
            return Err(ProgramError::InvalidAccountData);
        }
        let status = match RoundStatus::try_from_primitive(src[0]) {
            Some(status) => status,
            None => {
                return Err(ProgramError::InvalidAccountData);
            },
        };
        proof {
            lemma_u64_from_le_bound(src@.subrange(1, 9));
            lemma_u64_from_le_bound(src@.subrange(9, 17));
        }
        Ok(
            Round {
                status,
                fund: read_u64(src, 1),
                fee: read_u64(src, 9),
                vault: Pubkey::read(src, 17),
                owner: Pubkey::read(src, 49),
                area: U256::read_le(src, 81),
            },
        )
    }

    /// Decodes a record, started or not.
    pub fn unpack_unchecked(src: &[u8]) -> (decoded: Result<Round, ProgramError>)
        ensures
            round_result(decoded) == RoundView::from_bytes(src@),
    {
        Round::unpack_from_slice(src)
    }

    /// Decodes the record of a round that has been started.
    pub fn unpack(src: &[u8]) -> (decoded: Result<Round, ProgramError>)
        ensures
            round_result(decoded) == RoundView::started_from_bytes(src@),
    {
        let round = match Round::unpack_from_slice(src) {
            Ok(round) => round,
            Err(e) => {
                return Err(e);
            },
        };
        if round.is_initialized() {
            Ok(round)
        } else {
            Err(ProgramError::UninitializedAccount)
        }
    }

    /// The bytes of the record.
    pub fn to_bytes(&self) -> (buf: Vec<u8>)
        ensures
            buf@ == self@.bytes(),
            buf@.len() == Round::LEN,
    {
        let mut buf: Vec<u8> = Vec::new();
        buf.push(self.status.to_primitive());
        push_u64(&mut buf, self.fund);
        push_u64(&mut buf, self.fee);
        self.vault.push(&mut buf);
        self.owner.push(&mut buf);
        self.area.push_le(&mut buf);
        proof {
            lemma_round_view_wf(*self);
            lemma_round_bytes_len(self@);
            assert(buf@ =~= self@.bytes());
        }
        buf
    }

    /// Writes the record into `dst`.
    pub fn pack_into_slice(&self, dst: &mut [u8])
        requires
            old(dst)@.len() == Round::LEN,
        ensures
            final(dst)@ == self@.bytes(),
    {
        let buf = self.to_bytes();
        copy_into(dst, buf.as_slice());
    }

    /// Writes the record into `dst` where `dst` has the record's length.
    pub fn pack(src: Round, dst: &mut [u8]) -> (written: Result<(), ProgramError>)
        ensures
            old(dst)@.len() == Round::LEN ==> written is Ok && final(dst)@ == src@.bytes(),
            old(dst)@.len() != Round::LEN ==> written == Err::<(), ProgramError>(
                ProgramError::InvalidAccountData,
            ) && final(dst)@ == old(dst)@,
    {
        if dst.len() != Round::LEN {
            return Err(ProgramError::InvalidAccountData);
        }
        src.pack_into_slice(dst);
        Ok(())
    }
}

/// What a round holds is well formed.
pub proof fn lemma_round_view_wf(round: Round)
    ensures
        round@.wf(),
{
    lemma_words(round.area.w0, round.area.w1, round.area.w2, round.area.w3);
}

/// The bytes of a round are 113.
pub proof fn lemma_round_bytes_len(round: RoundView)
    requires
        round.wf(),
    ensures
        round.bytes().len() == 113,
{
    lemma_u64_le_round_trip(round.fund);
    lemma_u64_le_round_trip(round.fee);
    lemma_u256_le_round_trip(round.area);
}

/// Decoding the bytes of a round gives the round.
pub proof fn lemma_round_unpack_pack(round: RoundView)
    requires
        round.wf(),
    ensures
        RoundView::from_bytes(round.bytes()) == Ok::<RoundView, ProgramError>(round),
{
    let src = round.bytes();
    lemma_round_bytes_len(round);
    lemma_u64_le_round_trip(round.fund);
    lemma_u64_le_round_trip(round.fee);
    lemma_u256_le_round_trip(round.area);
    assert(src.subrange(1, 9) =~= u64_to_le(round.fund));
    assert(src.subrange(9, 17) =~= u64_to_le(round.fee));
    assert(src.subrange(17, 49) =~= round.vault);
    assert(src.subrange(49, 81) =~= round.owner);
    assert(src.subrange(81, 113) =~= u256_to_le(round.area));
}

/// Encoding what bytes decode to gives the bytes.
pub proof fn lemma_round_pack_unpack(src: Seq<u8>)
    ensures
        RoundView::from_bytes(src) matches Ok(round) ==> round.wf() && round.bytes() == src,
{
    if let Ok(round) = RoundView::from_bytes(src) {
        lemma_u64_from_le_bound(src.subrange(1, 9));
        lemma_u64_from_le_bound(src.subrange(9, 17));
        lemma_u64_le_bytes_round_trip(src.subrange(1, 9));
        lemma_u64_le_bytes_round_trip(src.subrange(9, 17));
        lemma_u256_le_bytes_round_trip(src.subrange(81, 113));
        assert(round.bytes() =~= src);
    }
}

/// A buffer of 113 bytes that starts with a zero holds a round that was not
/// started.
pub proof fn lemma_fresh_round(src: Seq<u8>)
    requires
        src.len() == 113,
        src[0] == 0,
    ensures
        RoundView::from_bytes(src) is Ok,
        !RoundView::from_bytes(src)->Ok_0.is_initialized(),
{
}

/// The round with nothing in it, on which none was started.
pub open spec fn empty_round() -> RoundView {
    RoundView {
        status: RoundStatus::Uninitialized,
        fund: 0,
        fee: 0,
        vault: zero_key(),
        owner: zero_key(),
        area: 0,
    }
}

/// A buffer of 113 zero bytes holds the round with nothing in it.
pub proof fn lemma_zeroed_round(src: Seq<u8>)
    requires
        src.len() == 113,
        forall|i: int| 0 <= i < 113 ==> src[i] == 0,
    ensures
        RoundView::from_bytes(src) == Ok::<RoundView, ProgramError>(empty_round()),
        !empty_round().is_initialized(),
{
    lemma_u64_from_le_zeros(src.subrange(1, 9));
    lemma_u64_from_le_zeros(src.subrange(9, 17));
    lemma_u256_from_le_zeros(src.subrange(81, 113));
    assert(src.subrange(17, 49) =~= zero_key());
    assert(src.subrange(49, 81) =~= zero_key());
}

/// One recipient of funds, registered with a round.
#[derive(Clone, Copy, Debug, PartialEq, Eq)]
pub struct Project {
    /// The round that the project is registered with.
    pub round: Pubkey,
    /// Who withdraws for the project.
    pub owner: Pubkey,
    /// Whether the project has withdrawn.
    pub withdraw: bool,
    /// The sum of the contributions.
    pub votes: u64,
    /// The square of `area_sqrt`, in fixed precision.
    pub area: U256,
    /// The sum over the contributors of the square root of what each has
    /// contributed, in fixed precision.
    pub area_sqrt: U256,
}

/// What a `Project` holds.
pub struct ProjectView {
    pub round: Seq<u8>,
    pub owner: Seq<u8>,
    pub withdraw: bool,
    pub votes: u64,
    pub area: nat,
    pub area_sqrt: nat,
}

impl ProjectView {
    /// The addresses have 32 bytes and the areas fit in 256 bits.
    pub open spec fn wf(self) -> bool {
        &&& self.round.len() == 32
        &&& self.owner.len() == 32
        &&& self.area < u256_limit()
        &&& self.area_sqrt < u256_limit()
    }

    /// The project has been registered with a round.
    pub open spec fn is_initialized(self) -> bool {
        self.round != zero_key()
    }

    /// The 137 bytes of the record.
    pub open spec fn bytes(self) -> Seq<u8> {
        self.round + self.owner + seq![flag_byte(self.withdraw)] + u64_to_le(self.votes)
            + u256_to_le(self.area) + u256_to_le(self.area_sqrt)
    }

    /// The project that the bytes hold, where one has been registered.
    pub open spec fn registered_from_bytes(src: Seq<u8>) -> Result<ProjectView, ProgramError> {
        match ProjectView::from_bytes(src) {
            Ok(project) => if project.is_initialized() {
                Ok(project)
            } else {
                Err(ProgramError::UninitializedAccount)
            },
            Err(e) => Err(e),
        }
    }

    /// The record that 137 bytes hold; other lengths and an unknown flag byte
    /// hold none.
    pub open spec fn from_bytes(src: Seq<u8>) -> Result<ProjectView, ProgramError> {
        if src.len() != 137 {
            Err(ProgramError::InvalidAccountData)
        } else {
            match flag_from_byte(src[64]) {
                None => Err(ProgramError::InvalidAccountData),
                Some(withdraw) => Ok(
                    ProjectView {
                        round: src.subrange(0, 32),
                        owner: src.subrange(32, 64),
                        withdraw,
                        votes: u64_from_le(src.subrange(65, 73)) as u64,
                        area: u256_from_le(src.subrange(73, 105)),
                        area_sqrt: u256_from_le(src.subrange(105, 137)),
                    },
                ),
            }
        }
    }
}

impl View for Project {
    type V = ProjectView;

    open spec fn view(&self) -> ProjectView {
        ProjectView {
            round: self.round@,
            owner: self.owner@,
            withdraw: self.withdraw,
            votes: self.votes,
            area: self.area@,
            area_sqrt: self.area_sqrt@,
        }
    }
}

/// The view of a decoded project.
pub open spec fn project_result(decoded: Result<Project, ProgramError>) -> Result<
    ProjectView,
    ProgramError,
> {
    match decoded {
        Ok(project) => Ok(project@),
        Err(e) => Err(e),
    }
}

impl Default for Project {
    /// A record on which no project was registered, with nothing in it.
    fn default() -> (project: Project)
        ensures
            project@ == empty_project(),
    {
        Project {
            round: Pubkey::default(),
            owner: Pubkey::default(),
            withdraw: false,
            votes: 0,
            area: U256::zero(),
            area_sqrt: U256::zero(),
        }
    }
}

impl Project {
    /// The length of the record in bytes.
    pub const LEN: usize = 137;

    /// The project has been registered with a round.
    pub fn is_initialized(&self) -> (registered: bool)
        ensures
            registered == self@.is_initialized(),
    {
        let zero = Pubkey::default();
        !self.round.eq(&zero)
    }

    /// Decodes a record.
    pub fn unpack_from_slice(src: &[u8]) -> (decoded: Result<Project, ProgramError>)
        ensures
            project_result(decoded) == ProjectView::from_bytes(src@),
    {
        if src.len() != 137 {
            return Err(ProgramError::InvalidAccountData);
        }
        let withdraw = match src[64] {
            0 => false,
            1 => true,
            _ => {
                return Err(ProgramError::InvalidAccountData);
            },
        };
        proof {
            lemma_u64_from_le_bound(src@.subrange(65, 73));
        }
        Ok(
            Project {
                round: Pubkey::read(src, 0),
                owner: Pubkey::read(src, 32),
                withdraw,
                votes: read_u64(src, 65),
                area: U256::read_le(src, 73),
                area_sqrt: U256::read_le(src, 105),
            },
        )
    }

    /// Decodes a record, registered or not.
    pub fn unpack_unchecked(src: &[u8]) -> (decoded: Result<Project, ProgramError>)
        ensures
            project_result(decoded) == ProjectView::from_bytes(src@),
    {
        Project::unpack_from_slice(src)
    }

    /// Decodes the record of a project that has been registered.
    pub fn unpack(src: &[u8]) -> (decoded: Result<Project, ProgramError>)
        ensures
            project_result(decoded) == ProjectView::registered_from_bytes(src@),
    {
        let project = match Project::unpack_from_slice(src) {
            Ok(project) => project,
            Err(e) => {
                return Err(e);
            },
        };
        if project.is_initialized() {
            Ok(project)
        } else {
            Err(ProgramError::UninitializedAccount)
        }
    }

    /// The bytes of the record.
    pub fn to_bytes(&self) -> (buf: Vec<u8>)
        ensures
            buf@ == self@.bytes(),
            buf@.len() == Project::LEN,
    {
        let mut buf: Vec<u8> = Vec::new();
        self.round.push(&mut buf);
        self.owner.push(&mut buf);
        buf.push(if self.withdraw { 1 } else { 0 });
        push_u64(&mut buf, self.votes);
        self.area.push_le(&mut buf);
        self.area_sqrt.push_le(&mut buf);
        proof {
            lemma_project_view_wf(*self);
            lemma_project_bytes_len(self@);
            assert(buf@ =~= self@.bytes());
        }
        buf
    }

    /// Writes the record into `dst`.
    pub fn pack_into_slice(&self, dst: &mut [u8])
        requires
            old(dst)@.len() == Project::LEN,
        ensures
            final(dst)@ == self@.bytes(),
    {
        let buf = self.to_bytes();
        copy_into(dst, buf.as_slice());
    }

    /// Writes the record into `dst` where `dst` has the record's length.
    pub fn pack(src: Project, dst: &mut [u8]) -> (written: Result<(), ProgramError>)
        ensures
            old(dst)@.len() == Project::LEN ==> written is Ok && final(dst)@ == src@.bytes(),
            old(dst)@.len() != Project::LEN ==> written == Err::<(), ProgramError>(
                ProgramError::InvalidAccountData,
            ) && final(dst)@ == old(dst)@,
    {
        if dst.len() != Project::LEN {
            return Err(ProgramError::InvalidAccountData);
        }
        src.pack_into_slice(dst);
        Ok(())
    }
}

/// What a project holds is well formed.
pub proof fn lemma_project_view_wf(project: Project)
    ensures
        project@.wf(),
{
    lemma_words(project.area.w0, project.area.w1, project.area.w2, project.area.w3);
    lemma_words(
        project.area_sqrt.w0,
        project.area_sqrt.w1,
        project.area_sqrt.w2,
        project.area_sqrt.w3,
    );
}

/// The bytes of a project are 137.
pub proof fn lemma_project_bytes_len(project: ProjectView)
    requires
        project.wf(),
    ensures
        project.bytes().len() == 137,
{
    lemma_u64_le_round_trip(project.votes);
    lemma_u256_le_round_trip(project.area);
    lemma_u256_le_round_trip(project.area_sqrt);
}

/// Decoding the bytes of a project gives the project.
pub proof fn lemma_project_unpack_pack(project: ProjectView)
    requires
        project.wf(),
    ensures
        ProjectView::from_bytes(project.bytes()) == Ok::<ProjectView, ProgramError>(project),
{
    let src = project.bytes();
    lemma_project_bytes_len(project);
    lemma_u64_le_round_trip(project.votes);
    lemma_u256_le_round_trip(project.area);
    lemma_u256_le_round_trip(project.area_sqrt);
    assert(src.subrange(0, 32) =~= project.round);
    assert(src.subrange(32, 64) =~= project.owner);
    assert(src.subrange(65, 73) =~= u64_to_le(project.votes));
    assert(src.subrange(73, 105) =~= u256_to_le(project.area));
    assert(src.subrange(105, 137) =~= u256_to_le(project.area_sqrt));
}

/// Encoding what bytes decode to gives the bytes.
pub proof fn lemma_project_pack_unpack(src: Seq<u8>)
    ensures
        ProjectView::from_bytes(src) matches Ok(project) ==> project.wf() && project.bytes()
            == src,
{
    if let Ok(project) = ProjectView::from_bytes(src) {
        lemma_u64_from_le_bound(src.subrange(65, 73));
        lemma_u64_le_bytes_round_trip(src.subrange(65, 73));
        lemma_u256_le_bytes_round_trip(src.subrange(73, 105));
        lemma_u256_le_bytes_round_trip(src.subrange(105, 137));
        assert(project.bytes() =~= src);
    }
}

/// The project with nothing in it, which was not registered.
pub open spec fn empty_project() -> ProjectView {
    ProjectView {
        round: zero_key(),
        owner: zero_key(),
        withdraw: false,
        votes: 0,
        area: 0,
        area_sqrt: 0,
    }
}

/// A buffer of 137 bytes that starts with 32 zeros and whose flag is clear
/// holds a project that was not registered.
pub proof fn lemma_fresh_project(src: Seq<u8>)
    requires
        src.len() == 137,
        forall|i: int| 0 <= i < 32 ==> src[i] == 0,
        src[64] == 0 || src[64] == 1,
    ensures
        ProjectView::from_bytes(src) is Ok,
        !ProjectView::from_bytes(src)->Ok_0.is_initialized(),
{
    assert(src.subrange(0, 32) =~= zero_key());
}

/// A buffer of 137 zero bytes holds the project with nothing in it.
pub proof fn lemma_zeroed_project(src: Seq<u8>)
    requires
        src.len() == 137,
        forall|i: int| 0 <= i < 137 ==> src[i] == 0,
    ensures
        ProjectView::from_bytes(src) == Ok::<ProjectView, ProgramError>(empty_project()),
        !empty_project().is_initialized(),
{
    lemma_u64_from_le_zeros(src.subrange(65, 73));
    lemma_u256_from_le_zeros(src.subrange(73, 105));
    lemma_u256_from_le_zeros(src.subrange(105, 137));
    assert(src.subrange(0, 32) =~= zero_key());
    assert(src.subrange(32, 64) =~= zero_key());
}

/// What one contributor has given to one project.
#[derive(Clone, Copy, Debug, PartialEq, Eq, Structural)]
pub struct Voter {
    /// Whether the record has been created.
    pub is_initialized: bool,
    /// The sum of the contributions.
    pub votes: u64,
    /// The square root of `votes`, in fixed precision.
    pub votes_sqrt: U256,
}

/// What a `Voter` holds.
pub struct VoterView {
    pub is_initialized: bool,
    pub votes: u64,
    pub votes_sqrt: nat,
}

impl VoterView {
    /// The square root fits in 256 bits.
    pub open spec fn wf(self) -> bool {
        self.votes_sqrt < u256_limit()
    }

    /// The 41 bytes of the record.
    pub open spec fn bytes(self) -> Seq<u8> {
        seq![flag_byte(self.is_initialized)] + u64_to_le(self.votes) + u256_to_le(
            self.votes_sqrt,
        )
    }

    /// The voter that the bytes hold, where one has been created.
    pub open spec fn created_from_bytes(src: Seq<u8>) -> Result<VoterView, ProgramError> {
        match VoterView::from_bytes(src) {
            Ok(voter) => if voter.is_initialized {
                Ok(voter)
            } else {
                Err(ProgramError::UninitializedAccount)
            },
            Err(e) => Err(e),
        }
    }

    /// The record that 41 bytes hold; other lengths and an unknown flag byte
    /// hold none.
    pub open spec fn from_bytes(src: Seq<u8>) -> Result<VoterView, ProgramError> {
        if src.len() != 41 {
            Err(ProgramError::InvalidAccountData)
        } else {
            match flag_from_byte(src[0]) {
                None => Err(ProgramError::InvalidAccountData),
                Some(is_initialized) => Ok(
                    VoterView {
                        is_initialized,
                        votes: u64_from_le(src.subrange(1, 9)) as u64,
                        votes_sqrt: u256_from_le(src.subrange(9, 41)),
                    },
                ),
            }
        }
    }
}

impl View for Voter {
    type V = VoterView;

    open spec fn view(&self) -> VoterView {
        VoterView {
            is_initialized: self.is_initialized,
            votes: self.votes,
            votes_sqrt: self.votes_sqrt@,
        }
    }
}

/// The view of a decoded voter.
pub open spec fn voter_result(decoded: Result<Voter, ProgramError>) -> Result<
    VoterView,
    ProgramError,
> {
    match decoded {
        Ok(voter) => Ok(voter@),
        Err(e) => Err(e),
    }
}

impl Default for Voter {
    /// A record that was not created, with nothing in it.
    fn default() -> (voter: Voter)
        ensures
            voter@ == empty_voter(),
    {
        Voter { is_initialized: false, votes: 0, votes_sqrt: U256::zero() }
    }
}

impl Voter {
    /// The length of the record in bytes.
    pub const LEN: usize = 41;

    /// The record has been created.
    pub fn is_initialized(&self) -> (created: bool)
        ensures
            created == self@.is_initialized,
    {
        self.is_initialized
    }

    /// Decodes a record.
    pub fn unpack_from_slice(src: &[u8]) -> (decoded: Result<Voter, ProgramError>)
        ensures
            voter_result(decoded) == VoterView::from_bytes(src@),
    {
        if src.len() != 41 {
            return Err(ProgramError::InvalidAccountData);
        }
        let is_initialized = match src[0] {
            0 => false,
            1 => true,
            _ => {
                return Err(ProgramError::InvalidAccountData);
            },
        };
        proof {
            lemma_u64_from_le_bound(src@.subrange(1, 9));
        }
        Ok(Voter { is_initialized, votes: read_u64(src, 1), votes_sqrt: U256::read_le(src, 9) })
    }

    /// Decodes a record, created or not.
    pub fn unpack_unchecked(src: &[u8]) -> (decoded: Result<Voter, ProgramError>)
        ensures
            voter_result(decoded) == VoterView::from_bytes(src@),
    {
        Voter::unpack_from_slice(src)
    }

    /// Decodes a record that has been created.
    pub fn unpack(src: &[u8]) -> (decoded: Result<Voter, ProgramError>)
        ensures
            voter_result(decoded) == VoterView::created_from_bytes(src@),
    {
        let voter = match Voter::unpack_from_slice(src) {
            Ok(voter) => voter,
            Err(e) => {
                return Err(e);
            },
        };
        if voter.is_initialized() {
            Ok(voter)
        } else {
            Err(ProgramError::UninitializedAccount)
        }
    }

    /// The bytes of the record.
    pub fn to_bytes(&self) -> (buf: Vec<u8>)
        ensures
            buf@ == self@.bytes(),
            buf@.len() == Voter::LEN,
    {
        let mut buf: Vec<u8> = Vec::new();
        buf.push(if self.is_initialized { 1 } else { 0 });
        push_u64(&mut buf, self.votes);
        self.votes_sqrt.push_le(&mut buf);
        proof {
            lemma_voter_view_wf(*self);
            lemma_voter_bytes_len(self@);
            assert(buf@ =~= self@.bytes());
        }
        buf
    }

    /// Writes the record into `dst`.
    pub fn pack_into_slice(&self, dst: &mut [u8])
        requires
            old(dst)@.len() == Voter::LEN,
        ensures
            final(dst)@ == self@.bytes(),
    {
        let buf = self.to_bytes();
        copy_into(dst, buf.as_slice());
    }

    /// Writes the record into `dst` where `dst` has the record's length.
    pub fn pack(src: Voter, dst: &mut [u8]) -> (written: Result<(), ProgramError>)
        ensures
            old(dst)@.len() == Voter::LEN ==> written is Ok && final(dst)@ == src@.bytes(),
            old(dst)@.len() != Voter::LEN ==> written == Err::<(), ProgramError>(
                ProgramError::InvalidAccountData,
            ) && final(dst)@ == old(dst)@,
    {
        if dst.len() != Voter::LEN {
            return Err(ProgramError::InvalidAccountData);
        }
        src.pack_into_slice(dst);
        Ok(())
    }
}

/// What a voter holds is well formed.
pub proof fn lemma_voter_view_wf(voter: Voter)
    ensures
        voter@.wf(),
{
    lemma_words(
        voter.votes_sqrt.w0,
        voter.votes_sqrt.w1,
        voter.votes_sqrt.w2,
        voter.votes_sqrt.w3,
    );
}

/// The bytes of a voter are 41.
pub proof fn lemma_voter_bytes_len(voter: VoterView)
    requires
        voter.wf(),
    ensures
        voter.bytes().len() == 41,
{
    lemma_u64_le_round_trip(voter.votes);
    lemma_u256_le_round_trip(voter.votes_sqrt);
}

/// Decoding the bytes of a voter gives the voter.
pub proof fn lemma_voter_unpack_pack(voter: VoterView)
    requires
        voter.wf(),
    ensures
        VoterView::from_bytes(voter.bytes()) == Ok::<VoterView, ProgramError>(voter),
{
    let src = voter.bytes();
    lemma_voter_bytes_len(voter);
    lemma_u64_le_round_trip(voter.votes);
    lemma_u256_le_round_trip(voter.votes_sqrt);
    assert(src.subrange(1, 9) =~= u64_to_le(voter.votes));
    assert(src.subrange(9, 41) =~= u256_to_le(voter.votes_sqrt));
}

/// Encoding what bytes decode to gives the bytes.
pub proof fn lemma_voter_pack_unpack(src: Seq<u8>)
    ensures
        VoterView::from_bytes(src) matches Ok(voter) ==> voter.wf() && voter.bytes() == src,
{
    if let Ok(voter) = VoterView::from_bytes(src) {
        lemma_u64_from_le_bound(src.subrange(1, 9));
        lemma_u64_le_bytes_round_trip(src.subrange(1, 9));
        lemma_u256_le_bytes_round_trip(src.subrange(9, 41));
        assert(voter.bytes() =~= src);
    }
}

/// The voter with nothing in it, which was not created.
pub open spec fn empty_voter() -> VoterView {
    VoterView { is_initialized: false, votes: 0, votes_sqrt: 0 }
}

/// A buffer of 41 bytes that starts with a zero holds a voter that was not
/// created.
pub proof fn lemma_fresh_voter(src: Seq<u8>)
    requires
        src.len() == 41,
        src[0] == 0,
    ensures
        VoterView::from_bytes(src) is Ok,
        !VoterView::from_bytes(src)->Ok_0.is_initialized,
{
}

/// A buffer of 41 zero bytes holds the voter with nothing in it.
pub proof fn lemma_zeroed_voter(src: Seq<u8>)
    requires
        src.len() == 41,
        forall|i: int| 0 <= i < 41 ==> src[i] == 0,
    ensures
        VoterView::from_bytes(src) == Ok::<VoterView, ProgramError>(empty_voter()),
{
    lemma_u64_from_le_zeros(src.subrange(1, 9));
    lemma_u256_from_le_zeros(src.subrange(9, 41));
}

} // verus!

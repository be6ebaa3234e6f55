//! The transaction-type classification: the static table that maps a
//! three-digit detail type code to a direction and a classification, with
//! the documented custom numeric ranges kept directional.
use crate::util::{code_value_spec, parse_signed_spec};
use vstd::prelude::*;

verus! {

/// The classified transaction type: the raw code and what it names.
#[derive(Debug)]
pub enum TransactionType {
    Credit(String, TransactionSubType),
    Debit(String, TransactionSubType),
    Unknown(String, TransactionSubType),
}

/// The mathematical shape of a [`TransactionType`].
pub enum TransactionTypeS {
    Credit(Seq<char>, TransactionSubType),
    Debit(Seq<char>, TransactionSubType),
    Unknown(Seq<char>, TransactionSubType),
}

impl View for TransactionType {
    type V = TransactionTypeS;

    open spec fn view(&self) -> TransactionTypeS {
        match self {
            TransactionType::Credit(c, s) => TransactionTypeS::Credit(c@, *s),
            TransactionType::Debit(c, s) => TransactionTypeS::Debit(c@, *s),
            TransactionType::Unknown(c, s) => TransactionTypeS::Unknown(c@, *s),
        }
    }
}

/// The direction of money movement a classified code implies.
#[derive(Clone, Copy, Debug, PartialEq, Eq, Structural)]
pub enum TransactionDirection {
    Credit,
    Debit,
    Unknown,
}

/// The detailed classification of a transaction type code.
#[derive(Clone, Copy, Debug, PartialEq, Eq, Structural)]
pub enum TransactionSubType {
    AccountAnalysisFee,
    AccountHolderInitiatedAchDebit,
    AchConcentrationCredit,
    AchConcentrationDebit,
    AchCreditReceived,
    AchDebitReceived,
    AchDisbursementFundingDebit,
    AchReturnItemOrAdjustmentSettlement,
    AchReversalCredit,
    AchReversalDebit,
    AchSettlement,
    AmountAppliedToBuydown,
    AmountAppliedToDeferredInterestDetail,
    AmountAppliedToEscrow,
    AmountAppliedToInterest,
    AmountAppliedToLateCharges,
    AmountAppliedToMiscFees,
    AmountAppliedToPrincipal,
    AmountAppliedToServiceCharge,
    ArpDebit,
    AtmCredit,
    AtmDebit,
    BackValueAdjustment,
    BankersAcceptances,
    BankOriginatedDebit,
    BankPreparedDeposit,
    BondOperationsCredit,
    BondOperationsDebit,
    BookTransferCredit,
    BookTransferDebit,
    BrokerDebit,
    BrokerDeposit,
    CapitalChange,
    CashCenterCredit,
    CashCenterDebit,
    CashLetterAdjustment,
    CashLetterCredit,
    CashLetterDebit,
    CertifiedCheckDebit,
    CheckDepositPackage,
    CheckPaid,
    CheckPostedAndReturned,
    CheckReversal,
    ClearingSettlementCredit,
    ClearingSettlementDebit,
    CollectionOfDividends,
    CollectionOfInterestIncome,
    CommercialDeposit,
    CommercialPaper,
    Commission,
    Compensation,
    CorporateTradePaymentCredit,
    CorporateTradePaymentDebit,
    CorrespondentCollection,
    CorrespondentCollectionAdjustment,
    CorrespondentCollectionDebit,
    CouponCollectionDebit,
    CouponCollectionsBanks,
    Credit,
    CreditAdjustment,
    CreditReversal,
    CumulativeChecksPaid,
    CumulativeCredits,
    CumulativeDebits,
    CumulativeZbaDebits,
    CumulativeZbaOrDisbursementCredits,
    CurrencyAndCoinDeposited,
    CurrencyAndCoinShipped,
    Custom,
    CustomerPayroll,
    CustomerTerminalInitiatedMoneyTransfer,
    DebitAdjustment,
    DebitAnyType,
    DebitReversal,
    DepositCorrection,
    DepositCorrectionDebit,
    DepositedItemReturned,
    DepositReversal,
    DomesticCollection,
    Draft,
    DraftDeposit,
    DtcConcentrationCredit,
    DtcDebit,
    EdibanxCreditReceived,
    EdibanxCreditReturn,
    EdibanxReturnItemDebit,
    EdibanxSettlementDebit,
    EdiTransactionCredit,
    EdiTransactionDebit,
    FederalReserveBankCommercialBankDebit,
    FederalReserveBankLetterDebit,
    FedFundsPurchased,
    FedFundsSold,
    FloatAdjustment,
    FoodStampAdjustment,
    FoodStampLetter,
    ForeignCheckPurchase,
    ForeignChecksDeposited,
    ForeignChecksPaid,
    ForeignCollectionCredit,
    ForeignCollectionDebit,
    ForeignExchangeDebit,
    ForeignExchangeOfCredit,
    ForeignLetterOfCredit,
    ForeignRemittanceCredit,
    ForeignRemittanceDebit,
    FrbCashLetterAutoChargeAdjustment,
    FrbCashLetterAutoChargeCredit,
    FrbCashLetterAutoChargeDebit,
    FrbFineSortAdjustment,
    FrbFineSortCashLetterCredit,
    FrbFineSortCashLetterDebit,
    FrbGovernmentCheckAdjustment,
    FrbGovernmentChecksCashLetterCredit,
    FrbGovernmentChecksCashLetterDebit,
    FrbPostalMoneyOrderAdjustment,
    FrbPostalMoneyOrderCredit,
    FrbPostalMoneyOrderDebit,
    FrbStatementRecap,
    FreightPaymentCredit,
    FreightPaymentDebit,
    FuturesCredit,
    FuturesDebit,
    IncomingMoneyTransfer,
    IndividualAchReturnItem,
    IndividualAutomaticTransferCredit,
    IndividualAutomaticTransferDebit,
    IndividualBackValueCredit,
    IndividualBackValueDebit,
    IndividualBankCardDeposit,
    IndividualCollectionCredit,
    IndividualControlledDisbursingCredit,
    IndividualControlledDisbursingDebit,
    IndividualDtcDisbursingCredit,
    IndividualEscrowCredit,
    IndividualEscrowDebit,
    IndividualIncomingInternalMoneyTransfer,
    IndividualInternationalMoneyTransferCredit,
    IndividualInternationalMoneyTransferDebits,
    IndividualInvestmentPurchased,
    IndividualInvestmentSold,
    IndividualLoanDeposit,
    IndividualLoanPayment,
    IndividualOutgoingInternalMoneyTransfer,
    IndividualRejectedCredit,
    IndividualRejectedDebit,
    Info,
    InterestAdjustmentCredit,
    InterestAdjustmentDebit,
    InterestCredit,
    InterestDebit,
    InterestMaturedPrincipalPayment,
    InternationalMoneyMarketTrading,
    ItemInAchDeposit,
    ItemInAchDisbursementOrDebit,
    ItemInBrokersDeposit,
    ItemInDtcDeposit,
    ItemInLockboxDeposit,
    ItemInPacDeposit,
    ItemizedCreditOver10000,
    ItemizedDebitOver10000,
    LetterOfCredit,
    LetterOfCreditDebit,
    ListPostDebit,
    LoanParticipation,
    LockboxAdjustmentCredit,
    LockboxDebit,
    LockboxDeposit,
    MaturedFedFundsPurchased,
    MaturedRepurchaseOrder,
    MaturedReverseRepurchaseOrder,
    MaturityOfDebtSecurity,
    MiscellaneousAchCredit,
    MiscellaneousAchDebit,
    MiscellaneousCredit,
    MiscellaneousDebit,
    MiscellaneousFeeRefund,
    MiscellaneousFees,
    MiscellaneousInternationalCredit,
    MiscellaneousInternationalDebit,
    MiscellaneousSecurityCredit,
    MiscellaneousSecurityDebit,
    MoneyTransferAdjustment,
    OtherDeposit,
    OutgoingMoneyTransfer,
    Overdraft,
    OverdraftFee,
    PayableThroughDraft,
    PostingErrorCorrectionCredit,
    PostingErrorCorrectionDebit,
    PreauthorizedAchCredit,
    PreauthorizedAchDebit,
    PreauthorizedDraftCredit,
    PrincipalPaymentsCredit,
    PrincipalPaymentsDebit,
    PurchaseOfDebtSecurities,
    PurchaseOfEquitySecurities,
    RegularCollectionDebit,
    RePresentedCheckDeposit,
    ReturnItem,
    ReturnItemAdjustment,
    ReturnItemFee,
    SaleOfDebtSecurity,
    SaleOfEquitySecurity,
    SavingsBondLetterOrAdjustment,
    SavingsBondsSalesAdjustment,
    SecuritiesPurchased,
    SecuritiesSold,
    SecurityCollectionDebit,
    StandingOrder,
    SweepInterestIncome,
    SweepPrincipalBuy,
    SweepPrincipalSell,
    TransferOfTreasuryCredit,
    TransferOfTreasuryDebit,
    TreasuryTaxAndLoanCredit,
    TreasuryTaxAndLoanDebit,
    TrustCredit,
    TrustDebit,
    UniversalCredit,
    UniversalDebit,
    Unknown,
    YtdAdjustmentCredit,
    YtdAdjustmentDebit,
    ZbaCredit,
    ZbaCreditAdjustment,
    ZbaCreditTransfer,
    ZbaDebit,
    ZbaDebitAdjustment,
    ZbaDebitTransfer,
    ZbaFloatAdjustment,
}

pub open spec fn txn_class_low_spec(n: u16) -> (TransactionDirection, TransactionSubType) {
    if n == 108 {
        (TransactionDirection::Credit, TransactionSubType::Credit)
    } else
    if n == 115 {
        (TransactionDirection::Credit, TransactionSubType::LockboxDeposit)
    } else
    if n == 116 {
        (TransactionDirection::Credit, TransactionSubType::ItemInLockboxDeposit)
    } else
    if n == 118 {
        (TransactionDirection::Credit, TransactionSubType::LockboxAdjustmentCredit)
    } else
    if n == 121 {
        (TransactionDirection::Credit, TransactionSubType::EdiTransactionCredit)
    } else
    if n == 122 {
        (TransactionDirection::Credit, TransactionSubType::EdibanxCreditReceived)
    } else
    if n == 123 {
        (TransactionDirection::Credit, TransactionSubType::EdibanxCreditReturn)
    } else
    if n == 135 {
        (TransactionDirection::Credit, TransactionSubType::DtcConcentrationCredit)
    } else
    if n == 136 {
        (TransactionDirection::Credit, TransactionSubType::ItemInDtcDeposit)
    } else
    if n == 142 {
        (TransactionDirection::Credit, TransactionSubType::AchCreditReceived)
    } else
    if n == 143 {
        (TransactionDirection::Credit, TransactionSubType::ItemInAchDeposit)
    } else
    if n == 145 {
        (TransactionDirection::Credit, TransactionSubType::AchConcentrationCredit)
    } else
    if n == 147 {
        (TransactionDirection::Credit, TransactionSubType::IndividualBankCardDeposit)
    } else
    if n == 155 {
        (TransactionDirection::Credit, TransactionSubType::PreauthorizedDraftCredit)
    } else
    if n == 156 {
        (TransactionDirection::Credit, TransactionSubType::ItemInPacDeposit)
    } else
    if n == 164 {
        (TransactionDirection::Credit, TransactionSubType::CorporateTradePaymentCredit)
    } else
    if n == 165 {
        (TransactionDirection::Credit, TransactionSubType::PreauthorizedAchCredit)
    } else
    if n == 166 {
        (TransactionDirection::Credit, TransactionSubType::AchSettlement)
    } else
    if n == 168 {
        (TransactionDirection::Credit, TransactionSubType::AchReturnItemOrAdjustmentSettlement)
    } else
    if n == 169 {
        (TransactionDirection::Credit, TransactionSubType::MiscellaneousAchCredit)
    } else
    if n == 171 {
        (TransactionDirection::Credit, TransactionSubType::IndividualLoanDeposit)
    } else
    if n == 172 {
        (TransactionDirection::Credit, TransactionSubType::DepositCorrection)
    } else
    if n == 173 {
        (TransactionDirection::Credit, TransactionSubType::BankPreparedDeposit)
    } else
    if n == 174 {
        (TransactionDirection::Credit, TransactionSubType::OtherDeposit)
    } else
    if n == 175 {
        (TransactionDirection::Credit, TransactionSubType::CheckDepositPackage)
    } else
    if n == 176 {
        (TransactionDirection::Credit, TransactionSubType::RePresentedCheckDeposit)
    } else
    if n == 184 {
        (TransactionDirection::Credit, TransactionSubType::DraftDeposit)
    } else
    if n == 187 {
        (TransactionDirection::Credit, TransactionSubType::CashLetterCredit)
    } else
    if n == 189 {
        (TransactionDirection::Credit, TransactionSubType::CashLetterAdjustment)
    } else
    if n == 191 {
        (TransactionDirection::Credit, TransactionSubType::IndividualIncomingInternalMoneyTransfer)
    } else
    if n == 195 {
        (TransactionDirection::Credit, TransactionSubType::IncomingMoneyTransfer)
    } else
    if n == 196 {
        (TransactionDirection::Credit, TransactionSubType::MoneyTransferAdjustment)
    } else
    if n == 198 {
        (TransactionDirection::Credit, TransactionSubType::Compensation)
    } else
    if n == 201 {
        (TransactionDirection::Credit, TransactionSubType::IndividualAutomaticTransferCredit)
    } else
    if n == 202 {
        (TransactionDirection::Credit, TransactionSubType::BondOperationsCredit)
    } else
    if n == 206 {
        (TransactionDirection::Credit, TransactionSubType::BookTransferCredit)
    } else
    if n == 208 {
        (TransactionDirection::Credit, TransactionSubType::IndividualInternationalMoneyTransferCredit)
    } else
    if n == 212 {
        (TransactionDirection::Credit, TransactionSubType::ForeignLetterOfCredit)
    } else
    if n == 213 {
        (TransactionDirection::Credit, TransactionSubType::LetterOfCredit)
    } else
    if n == 214 {
        (TransactionDirection::Credit, TransactionSubType::ForeignExchangeOfCredit)
    } else
    if n == 216 {
        (TransactionDirection::Credit, TransactionSubType::ForeignRemittanceCredit)
    } else
    if n == 218 {
        (TransactionDirection::Credit, TransactionSubType::ForeignCollectionCredit)
    } else
    if n == 221 {
        (TransactionDirection::Credit, TransactionSubType::ForeignCheckPurchase)
    } else
    if n == 222 {
        (TransactionDirection::Credit, TransactionSubType::ForeignChecksDeposited)
    } else
    if n == 224 {
        (TransactionDirection::Credit, TransactionSubType::Commission)
    } else
    if n == 226 {
        (TransactionDirection::Credit, TransactionSubType::InternationalMoneyMarketTrading)
    } else
    if n == 227 {
        (TransactionDirection::Credit, TransactionSubType::StandingOrder)
    } else
    if n == 229 {
        (TransactionDirection::Credit, TransactionSubType::MiscellaneousInternationalCredit)
    } else
    if n == 232 {
        (TransactionDirection::Credit, TransactionSubType::SaleOfDebtSecurity)
    } else
    if n == 233 {
        (TransactionDirection::Credit, TransactionSubType::SecuritiesSold)
    } else
    if n == 234 {
        (TransactionDirection::Credit, TransactionSubType::SaleOfEquitySecurity)
    } else
    if n == 235 {
        (TransactionDirection::Credit, TransactionSubType::MaturedReverseRepurchaseOrder)
    } else
    if n == 236 {
        (TransactionDirection::Credit, TransactionSubType::MaturityOfDebtSecurity)
    } else
    if n == 237 {
        (TransactionDirection::Credit, TransactionSubType::IndividualCollectionCredit)
    } else
    if n == 238 {
        (TransactionDirection::Credit, TransactionSubType::CollectionOfDividends)
    } else
    if n == 240 {
        (TransactionDirection::Credit, TransactionSubType::CouponCollectionsBanks)
    } else
    if n == 241 {
        (TransactionDirection::Credit, TransactionSubType::BankersAcceptances)
    } else
    if n == 242 {
        (TransactionDirection::Credit, TransactionSubType::CollectionOfInterestIncome)
    } else
    if n == 243 {
        (TransactionDirection::Credit, TransactionSubType::MaturedFedFundsPurchased)
    } else
    if n == 244 {
        (TransactionDirection::Credit, TransactionSubType::InterestMaturedPrincipalPayment)
    } else
    if n == 246 {
        (TransactionDirection::Credit, TransactionSubType::CommercialPaper)
    } else
    if n == 247 {
        (TransactionDirection::Credit, TransactionSubType::CapitalChange)
    } else
    if n == 248 {
        (TransactionDirection::Credit, TransactionSubType::SavingsBondsSalesAdjustment)
    } else
    if n == 249 {
        (TransactionDirection::Credit, TransactionSubType::MiscellaneousSecurityCredit)
    } else
    if n == 252 {
        (TransactionDirection::Credit, TransactionSubType::DebitReversal)
    } else
    if n == 254 {
        (TransactionDirection::Credit, TransactionSubType::PostingErrorCorrectionCredit)
    } else
    if n == 255 {
        (TransactionDirection::Credit, TransactionSubType::CheckPostedAndReturned)
    } else
    if n == 257 {
        (TransactionDirection::Credit, TransactionSubType::IndividualAchReturnItem)
    } else
    if n == 258 {
        (TransactionDirection::Credit, TransactionSubType::AchReversalCredit)
    } else
    if n == 261 {
        (TransactionDirection::Credit, TransactionSubType::IndividualRejectedCredit)
    } else
    if n == 263 {
        (TransactionDirection::Credit, TransactionSubType::Overdraft)
    } else
    if n == 266 {
        (TransactionDirection::Credit, TransactionSubType::ReturnItem)
    } else
    if n == 268 {
        (TransactionDirection::Credit, TransactionSubType::ReturnItemAdjustment)
    } else
    if n == 274 {
        (TransactionDirection::Credit, TransactionSubType::CumulativeZbaOrDisbursementCredits)
    } else
    if n == 275 {
        (TransactionDirection::Credit, TransactionSubType::ZbaCredit)
    } else
    if n == 276 {
        (TransactionDirection::Credit, TransactionSubType::ZbaFloatAdjustment)
    } else
    if n == 277 {
        (TransactionDirection::Credit, TransactionSubType::ZbaCreditTransfer)
    } else
    if n == 278 {
        (TransactionDirection::Credit, TransactionSubType::ZbaCreditAdjustment)
    } else
    if n == 281 {
        (TransactionDirection::Credit, TransactionSubType::IndividualControlledDisbursingCredit)
    } else
    if n == 286 {
        (TransactionDirection::Credit, TransactionSubType::IndividualDtcDisbursingCredit)
    } else
    if n == 295 {
        (TransactionDirection::Credit, TransactionSubType::AtmCredit)
    } else {
        (TransactionDirection::Unknown, TransactionSubType::Unknown)
    }
}

fn txn_class_low(n: u16) -> (r: (TransactionDirection, TransactionSubType))
    ensures
        r == txn_class_low_spec(n),
{
    if n == 108 {
        (TransactionDirection::Credit, TransactionSubType::Credit)
    } else
    if n == 115 {
        (TransactionDirection::Credit, TransactionSubType::LockboxDeposit)
    } else
    if n == 116 {
        (TransactionDirection::Credit, TransactionSubType::ItemInLockboxDeposit)
    } else
    if n == 118 {
        (TransactionDirection::Credit, TransactionSubType::LockboxAdjustmentCredit)
    } else
    if n == 121 {
        (TransactionDirection::Credit, TransactionSubType::EdiTransactionCredit)
    } else
    if n == 122 {
        (TransactionDirection::Credit, TransactionSubType::EdibanxCreditReceived)
    } else
    if n == 123 {
        (TransactionDirection::Credit, TransactionSubType::EdibanxCreditReturn)
    } else
    if n == 135 {
        (TransactionDirection::Credit, TransactionSubType::DtcConcentrationCredit)
    } else
    if n == 136 {
        (TransactionDirection::Credit, TransactionSubType::ItemInDtcDeposit)
    } else
    if n == 142 {
        (TransactionDirection::Credit, TransactionSubType::AchCreditReceived)
    } else
    if n == 143 {
        (TransactionDirection::Credit, TransactionSubType::ItemInAchDeposit)
    } else
    if n == 145 {
        (TransactionDirection::Credit, TransactionSubType::AchConcentrationCredit)
    } else
    if n == 147 {
        (TransactionDirection::Credit, TransactionSubType::IndividualBankCardDeposit)
    } else
    if n == 155 {
        (TransactionDirection::Credit, TransactionSubType::PreauthorizedDraftCredit)
    } else
    if n == 156 {
        (TransactionDirection::Credit, TransactionSubType::ItemInPacDeposit)
    } else
    if n == 164 {
        (TransactionDirection::Credit, TransactionSubType::CorporateTradePaymentCredit)
    } else
    if n == 165 {
        (TransactionDirection::Credit, TransactionSubType::PreauthorizedAchCredit)
    } else
    if n == 166 {
        (TransactionDirection::Credit, TransactionSubType::AchSettlement)
    } else
    if n == 168 {
        (TransactionDirection::Credit, TransactionSubType::AchReturnItemOrAdjustmentSettlement)
    } else
    if n == 169 {
        (TransactionDirection::Credit, TransactionSubType::MiscellaneousAchCredit)
    } else
    if n == 171 {
        (TransactionDirection::Credit, TransactionSubType::IndividualLoanDeposit)
    } else
    if n == 172 {
        (TransactionDirection::Credit, TransactionSubType::DepositCorrection)
    } else
    if n == 173 {
        (TransactionDirection::Credit, TransactionSubType::BankPreparedDeposit)
    } else
    if n == 174 {
        (TransactionDirection::Credit, TransactionSubType::OtherDeposit)
    } else
    if n == 175 {
        (TransactionDirection::Credit, TransactionSubType::CheckDepositPackage)
    } else
    if n == 176 {
        (TransactionDirection::Credit, TransactionSubType::RePresentedCheckDeposit)
    } else
    if n == 184 {
        (TransactionDirection::Credit, TransactionSubType::DraftDeposit)
    } else
    if n == 187 {
        (TransactionDirection::Credit, TransactionSubType::CashLetterCredit)
    } else
    if n == 189 {
        (TransactionDirection::Credit, TransactionSubType::CashLetterAdjustment)
    } else
    if n == 191 {
        (TransactionDirection::Credit, TransactionSubType::IndividualIncomingInternalMoneyTransfer)
    } else
    if n == 195 {
        (TransactionDirection::Credit, TransactionSubType::IncomingMoneyTransfer)
    } else
    if n == 196 {
        (TransactionDirection::Credit, TransactionSubType::MoneyTransferAdjustment)
    } else
    if n == 198 {
        (TransactionDirection::Credit, TransactionSubType::Compensation)
    } else
    if n == 201 {
        (TransactionDirection::Credit, TransactionSubType::IndividualAutomaticTransferCredit)
    } else
    if n == 202 {
        (TransactionDirection::Credit, TransactionSubType::BondOperationsCredit)
    } else
    if n == 206 {
        (TransactionDirection::Credit, TransactionSubType::BookTransferCredit)
    } else
    if n == 208 {
        (TransactionDirection::Credit, TransactionSubType::IndividualInternationalMoneyTransferCredit)
    } else
    if n == 212 {
        (TransactionDirection::Credit, TransactionSubType::ForeignLetterOfCredit)
    } else
    if n == 213 {
        (TransactionDirection::Credit, TransactionSubType::LetterOfCredit)
    } else
    if n == 214 {
        (TransactionDirection::Credit, TransactionSubType::ForeignExchangeOfCredit)
    } else
    if n == 216 {
        (TransactionDirection::Credit, TransactionSubType::ForeignRemittanceCredit)
    } else
    if n == 218 {
        (TransactionDirection::Credit, TransactionSubType::ForeignCollectionCredit)
    } else
    if n == 221 {
        (TransactionDirection::Credit, TransactionSubType::ForeignCheckPurchase)
    } else
    if n == 222 {
        (TransactionDirection::Credit, TransactionSubType::ForeignChecksDeposited)
    } else
    if n == 224 {
        (TransactionDirection::Credit, TransactionSubType::Commission)
    } else
    if n == 226 {
        (TransactionDirection::Credit, TransactionSubType::InternationalMoneyMarketTrading)
    } else
    if n == 227 {
        (TransactionDirection::Credit, TransactionSubType::StandingOrder)
    } else
    if n == 229 {
        (TransactionDirection::Credit, TransactionSubType::MiscellaneousInternationalCredit)
    } else
    if n == 232 {
        (TransactionDirection::Credit, TransactionSubType::SaleOfDebtSecurity)
    } else
    if n == 233 {
        (TransactionDirection::Credit, TransactionSubType::SecuritiesSold)
    } else
    if n == 234 {
        (TransactionDirection::Credit, TransactionSubType::SaleOfEquitySecurity)
    } else
    if n == 235 {
        (TransactionDirection::Credit, TransactionSubType::MaturedReverseRepurchaseOrder)
    } else
    if n == 236 {
        (TransactionDirection::Credit, TransactionSubType::MaturityOfDebtSecurity)
    } else
    if n == 237 {
        (TransactionDirection::Credit, TransactionSubType::IndividualCollectionCredit)
    } else
    if n == 238 {
        (TransactionDirection::Credit, TransactionSubType::CollectionOfDividends)
    } else
    if n == 240 {
        (TransactionDirection::Credit, TransactionSubType::CouponCollectionsBanks)
    } else
    if n == 241 {
        (TransactionDirection::Credit, TransactionSubType::BankersAcceptances)
    } else
    if n == 242 {
        (TransactionDirection::Credit, TransactionSubType::CollectionOfInterestIncome)
    } else
    if n == 243 {
        (TransactionDirection::Credit, TransactionSubType::MaturedFedFundsPurchased)
    } else
    if n == 244 {
        (TransactionDirection::Credit, TransactionSubType::InterestMaturedPrincipalPayment)
    } else
    if n == 246 {
        (TransactionDirection::Credit, TransactionSubType::CommercialPaper)
    } else
    if n == 247 {
        (TransactionDirection::Credit, TransactionSubType::CapitalChange)
    } else
    if n == 248 {
        (TransactionDirection::Credit, TransactionSubType::SavingsBondsSalesAdjustment)
    } else
    if n == 249 {
        (TransactionDirection::Credit, TransactionSubType::MiscellaneousSecurityCredit)
    } else
    if n == 252 {
        (TransactionDirection::Credit, TransactionSubType::DebitReversal)
    } else
    if n == 254 {
        (TransactionDirection::Credit, TransactionSubType::PostingErrorCorrectionCredit)
    } else
    if n == 255 {
        (TransactionDirection::Credit, TransactionSubType::CheckPostedAndReturned)
    } else
    if n == 257 {
        (TransactionDirection::Credit, TransactionSubType::IndividualAchReturnItem)
    } else
    if n == 258 {
        (TransactionDirection::Credit, TransactionSubType::AchReversalCredit)
    } else
    if n == 261 {
        (TransactionDirection::Credit, TransactionSubType::IndividualRejectedCredit)
    } else
    if n == 263 {
        (TransactionDirection::Credit, TransactionSubType::Overdraft)
    } else
    if n == 266 {
        (TransactionDirection::Credit, TransactionSubType::ReturnItem)
    } else
    if n == 268 {
        (TransactionDirection::Credit, TransactionSubType::ReturnItemAdjustment)
    } else
    if n == 274 {
        (TransactionDirection::Credit, TransactionSubType::CumulativeZbaOrDisbursementCredits)
    } else
    if n == 275 {
        (TransactionDirection::Credit, TransactionSubType::ZbaCredit)
    } else
    if n == 276 {
        (TransactionDirection::Credit, TransactionSubType::ZbaFloatAdjustment)
    } else
    if n == 277 {
        (TransactionDirection::Credit, TransactionSubType::ZbaCreditTransfer)
    } else
    if n == 278 {
        (TransactionDirection::Credit, TransactionSubType::ZbaCreditAdjustment)
    } else
    if n == 281 {
        (TransactionDirection::Credit, TransactionSubType::IndividualControlledDisbursingCredit)
    } else
    if n == 286 {
        (TransactionDirection::Credit, TransactionSubType::IndividualDtcDisbursingCredit)
    } else
    if n == 295 {
        (TransactionDirection::Credit, TransactionSubType::AtmCredit)
    } else {
        (TransactionDirection::Unknown, TransactionSubType::Unknown)
    }
}

pub open spec fn txn_class_mid_spec(n: u16) -> (TransactionDirection, TransactionSubType) {
    if n == 301 {
        (TransactionDirection::Credit, TransactionSubType::CommercialDeposit)
    } else
    if n == 306 {
        (TransactionDirection::Credit, TransactionSubType::FedFundsSold)
    } else
    if n == 308 {
        (TransactionDirection::Credit, TransactionSubType::TrustCredit)
    } else
    if n == 331 {
        (TransactionDirection::Credit, TransactionSubType::IndividualEscrowCredit)
    } else
    if n == 342 {
        (TransactionDirection::Credit, TransactionSubType::BrokerDeposit)
    } else
    if n == 344 {
        (TransactionDirection::Credit, TransactionSubType::IndividualBackValueCredit)
    } else
    if n == 345 {
        (TransactionDirection::Credit, TransactionSubType::ItemInBrokersDeposit)
    } else
    if n == 346 {
        (TransactionDirection::Credit, TransactionSubType::SweepInterestIncome)
    } else
    if n == 347 {
        (TransactionDirection::Credit, TransactionSubType::SweepPrincipalSell)
    } else
    if n == 348 {
        (TransactionDirection::Credit, TransactionSubType::FuturesCredit)
    } else
    if n == 349 {
        (TransactionDirection::Credit, TransactionSubType::PrincipalPaymentsCredit)
    } else
    if n == 351 {
        (TransactionDirection::Credit, TransactionSubType::IndividualInvestmentSold)
    } else
    if n == 353 {
        (TransactionDirection::Credit, TransactionSubType::CashCenterCredit)
    } else
    if n == 354 {
        (TransactionDirection::Credit, TransactionSubType::InterestCredit)
    } else
    if n == 357 {
        (TransactionDirection::Credit, TransactionSubType::CreditAdjustment)
    } else
    if n == 358 {
        (TransactionDirection::Credit, TransactionSubType::YtdAdjustmentCredit)
    } else
    if n == 359 {
        (TransactionDirection::Credit, TransactionSubType::InterestAdjustmentCredit)
    } else
    if n == 362 {
        (TransactionDirection::Credit, TransactionSubType::CorrespondentCollection)
    } else
    if n == 363 {
        (TransactionDirection::Credit, TransactionSubType::CorrespondentCollectionAdjustment)
    } else
    if n == 364 {
        (TransactionDirection::Credit, TransactionSubType::LoanParticipation)
    } else
    if n == 366 {
        (TransactionDirection::Credit, TransactionSubType::CurrencyAndCoinDeposited)
    } else
    if n == 367 {
        (TransactionDirection::Credit, TransactionSubType::FoodStampLetter)
    } else
    if n == 368 {
        (TransactionDirection::Credit, TransactionSubType::FoodStampAdjustment)
    } else
    if n == 369 {
        (TransactionDirection::Credit, TransactionSubType::ClearingSettlementCredit)
    } else
    if n == 372 {
        (TransactionDirection::Credit, TransactionSubType::BackValueAdjustment)
    } else
    if n == 373 {
        (TransactionDirection::Credit, TransactionSubType::CustomerPayroll)
    } else
    if n == 374 {
        (TransactionDirection::Credit, TransactionSubType::FrbStatementRecap)
    } else
    if n == 376 {
        (TransactionDirection::Credit, TransactionSubType::SavingsBondLetterOrAdjustment)
    } else
    if n == 377 {
        (TransactionDirection::Credit, TransactionSubType::TreasuryTaxAndLoanCredit)
    } else
    if n == 378 {
        (TransactionDirection::Credit, TransactionSubType::TransferOfTreasuryCredit)
    } else
    if n == 379 {
        (TransactionDirection::Credit, TransactionSubType::FrbGovernmentChecksCashLetterCredit)
    } else
    if n == 381 {
        (TransactionDirection::Credit, TransactionSubType::FrbGovernmentCheckAdjustment)
    } else
    if n == 382 {
        (TransactionDirection::Credit, TransactionSubType::FrbPostalMoneyOrderCredit)
    } else
    if n == 383 {
        (TransactionDirection::Credit, TransactionSubType::FrbPostalMoneyOrderAdjustment)
    } else
    if n == 384 {
        (TransactionDirection::Credit, TransactionSubType::FrbCashLetterAutoChargeCredit)
    } else
    if n == 386 {
        (TransactionDirection::Credit, TransactionSubType::FrbCashLetterAutoChargeAdjustment)
    } else
    if n == 387 {
        (TransactionDirection::Credit, TransactionSubType::FrbFineSortCashLetterCredit)
    } else
    if n == 388 {
        (TransactionDirection::Credit, TransactionSubType::FrbFineSortAdjustment)
    } else
    if n == 391 {
        (TransactionDirection::Credit, TransactionSubType::UniversalCredit)
    } else
    if n == 392 {
        (TransactionDirection::Credit, TransactionSubType::FreightPaymentCredit)
    } else
    if n == 393 {
        (TransactionDirection::Credit, TransactionSubType::ItemizedCreditOver10000)
    } else
    if n == 394 {
        (TransactionDirection::Credit, TransactionSubType::CumulativeCredits)
    } else
    if n == 395 {
        (TransactionDirection::Credit, TransactionSubType::CheckReversal)
    } else
    if n == 397 {
        (TransactionDirection::Credit, TransactionSubType::FloatAdjustment)
    } else
    if n == 398 {
        (TransactionDirection::Credit, TransactionSubType::MiscellaneousFeeRefund)
    } else
    if n == 399 {
        (TransactionDirection::Credit, TransactionSubType::MiscellaneousCredit)
    } else
    if n == 408 {
        (TransactionDirection::Debit, TransactionSubType::FloatAdjustment)
    } else
    if n == 409 {
        (TransactionDirection::Debit, TransactionSubType::DebitAnyType)
    } else
    if n == 415 {
        (TransactionDirection::Debit, TransactionSubType::LockboxDebit)
    } else
    if n == 421 {
        (TransactionDirection::Debit, TransactionSubType::EdiTransactionDebit)
    } else
    if n == 422 {
        (TransactionDirection::Debit, TransactionSubType::EdibanxSettlementDebit)
    } else
    if n == 423 {
        (TransactionDirection::Debit, TransactionSubType::EdibanxReturnItemDebit)
    } else
    if n == 435 {
        (TransactionDirection::Debit, TransactionSubType::PayableThroughDraft)
    } else
    if n == 445 {
        (TransactionDirection::Debit, TransactionSubType::AchConcentrationDebit)
    } else
    if n == 447 {
        (TransactionDirection::Debit, TransactionSubType::AchDisbursementFundingDebit)
    } else
    if n == 451 {
        (TransactionDirection::Debit, TransactionSubType::AchDebitReceived)
    } else
    if n == 452 {
        (TransactionDirection::Debit, TransactionSubType::ItemInAchDisbursementOrDebit)
    } else
    if n == 455 {
        (TransactionDirection::Debit, TransactionSubType::PreauthorizedAchDebit)
    } else
    if n == 462 {
        (TransactionDirection::Debit, TransactionSubType::AccountHolderInitiatedAchDebit)
    } else
    if n == 464 {
        (TransactionDirection::Debit, TransactionSubType::CorporateTradePaymentDebit)
    } else
    if n == 466 {
        (TransactionDirection::Debit, TransactionSubType::AchSettlement)
    } else
    if n == 468 {
        (TransactionDirection::Debit, TransactionSubType::AchReturnItemOrAdjustmentSettlement)
    } else
    if n == 469 {
        (TransactionDirection::Debit, TransactionSubType::MiscellaneousAchDebit)
    } else
    if n == 472 {
        (TransactionDirection::Debit, TransactionSubType::CumulativeChecksPaid)
    } else
    if n == 474 {
        (TransactionDirection::Debit, TransactionSubType::CertifiedCheckDebit)
    } else
    if n == 475 {
        (TransactionDirection::Debit, TransactionSubType::CheckPaid)
    } else
    if n == 476 {
        (TransactionDirection::Debit, TransactionSubType::FederalReserveBankLetterDebit)
    } else
    if n == 477 {
        (TransactionDirection::Debit, TransactionSubType::BankOriginatedDebit)
    } else
    if n == 479 {
        (TransactionDirection::Debit, TransactionSubType::ListPostDebit)
    } else
    if n == 481 {
        (TransactionDirection::Debit, TransactionSubType::IndividualLoanPayment)
    } else
    if n == 484 {
        (TransactionDirection::Debit, TransactionSubType::Draft)
    } else
    if n == 485 {
        (TransactionDirection::Debit, TransactionSubType::DtcDebit)
    } else
    if n == 487 {
        (TransactionDirection::Debit, TransactionSubType::CashLetterDebit)
    } else
    if n == 489 {
        (TransactionDirection::Debit, TransactionSubType::CashLetterAdjustment)
    } else
    if n == 491 {
        (TransactionDirection::Debit, TransactionSubType::IndividualOutgoingInternalMoneyTransfer)
    } else
    if n == 493 {
        (TransactionDirection::Debit, TransactionSubType::CustomerTerminalInitiatedMoneyTransfer)
    } else
    if n == 495 {
        (TransactionDirection::Debit, TransactionSubType::OutgoingMoneyTransfer)
    } else
    if n == 496 {
        (TransactionDirection::Debit, TransactionSubType::MoneyTransferAdjustment)
    } else
    if n == 498 {
        (TransactionDirection::Debit, TransactionSubType::Compensation)
    } else {
        (TransactionDirection::Unknown, TransactionSubType::Unknown)
    }
}

fn txn_class_mid(n: u16) -> (r: (TransactionDirection, TransactionSubType))
    ensures
        r == txn_class_mid_spec(n),
{
    if n == 301 {
        (TransactionDirection::Credit, TransactionSubType::CommercialDeposit)
    } else
    if n == 306 {
        (TransactionDirection::Credit, TransactionSubType::FedFundsSold)
    } else
    if n == 308 {
        (TransactionDirection::Credit, TransactionSubType::TrustCredit)
    } else
    if n == 331 {
        (TransactionDirection::Credit, TransactionSubType::IndividualEscrowCredit)
    } else
    if n == 342 {
        (TransactionDirection::Credit, TransactionSubType::BrokerDeposit)
    } else
    if n == 344 {
        (TransactionDirection::Credit, TransactionSubType::IndividualBackValueCredit)
    } else
    if n == 345 {
        (TransactionDirection::Credit, TransactionSubType::ItemInBrokersDeposit)
    } else
    if n == 346 {
        (TransactionDirection::Credit, TransactionSubType::SweepInterestIncome)
    } else
    if n == 347 {
        (TransactionDirection::Credit, TransactionSubType::SweepPrincipalSell)
    } else
    if n == 348 {
        (TransactionDirection::Credit, TransactionSubType::FuturesCredit)
    } else
    if n == 349 {
        (TransactionDirection::Credit, TransactionSubType::PrincipalPaymentsCredit)
    } else
    if n == 351 {
        (TransactionDirection::Credit, TransactionSubType::IndividualInvestmentSold)
    } else
    if n == 353 {
        (TransactionDirection::Credit, TransactionSubType::CashCenterCredit)
    } else
    if n == 354 {
        (TransactionDirection::Credit, TransactionSubType::InterestCredit)
    } else
    if n == 357 {
        (TransactionDirection::Credit, TransactionSubType::CreditAdjustment)
    } else
    if n == 358 {
        (TransactionDirection::Credit, TransactionSubType::YtdAdjustmentCredit)
    } else
    if n == 359 {
        (TransactionDirection::Credit, TransactionSubType::InterestAdjustmentCredit)
    } else
    if n == 362 {
        (TransactionDirection::Credit, TransactionSubType::CorrespondentCollection)
    } else
    if n == 363 {
        (TransactionDirection::Credit, TransactionSubType::CorrespondentCollectionAdjustment)
    } else
    if n == 364 {
        (TransactionDirection::Credit, TransactionSubType::LoanParticipation)
    } else
    if n == 366 {
        (TransactionDirection::Credit, TransactionSubType::CurrencyAndCoinDeposited)
    } else
    if n == 367 {
        (TransactionDirection::Credit, TransactionSubType::FoodStampLetter)
    } else
    if n == 368 {
        (TransactionDirection::Credit, TransactionSubType::FoodStampAdjustment)
    } else
    if n == 369 {
        (TransactionDirection::Credit, TransactionSubType::ClearingSettlementCredit)
    } else
    if n == 372 {
        (TransactionDirection::Credit, TransactionSubType::BackValueAdjustment)
    } else
    if n == 373 {
        (TransactionDirection::Credit, TransactionSubType::CustomerPayroll)
    } else
    if n == 374 {
        (TransactionDirection::Credit, TransactionSubType::FrbStatementRecap)
    } else
    if n == 376 {
        (TransactionDirection::Credit, TransactionSubType::SavingsBondLetterOrAdjustment)
    } else
    if n == 377 {
        (TransactionDirection::Credit, TransactionSubType::TreasuryTaxAndLoanCredit)
    } else
    if n == 378 {
        (TransactionDirection::Credit, TransactionSubType::TransferOfTreasuryCredit)
    } else
    if n == 379 {
        (TransactionDirection::Credit, TransactionSubType::FrbGovernmentChecksCashLetterCredit)
    } else
    if n == 381 {
        (TransactionDirection::Credit, TransactionSubType::FrbGovernmentCheckAdjustment)
    } else
    if n == 382 {
        (TransactionDirection::Credit, TransactionSubType::FrbPostalMoneyOrderCredit)
    } else
    if n == 383 {
        (TransactionDirection::Credit, TransactionSubType::FrbPostalMoneyOrderAdjustment)
    } else
    if n == 384 {
        (TransactionDirection::Credit, TransactionSubType::FrbCashLetterAutoChargeCredit)
    } else
    if n == 386 {
        (TransactionDirection::Credit, TransactionSubType::FrbCashLetterAutoChargeAdjustment)
    } else
    if n == 387 {
        (TransactionDirection::Credit, TransactionSubType::FrbFineSortCashLetterCredit)
    } else
    if n == 388 {
        (TransactionDirection::Credit, TransactionSubType::FrbFineSortAdjustment)
    } else
    if n == 391 {
        (TransactionDirection::Credit, TransactionSubType::UniversalCredit)
    } else
    if n == 392 {
        (TransactionDirection::Credit, TransactionSubType::FreightPaymentCredit)
    } else
    if n == 393 {
        (TransactionDirection::Credit, TransactionSubType::ItemizedCreditOver10000)
    } else
    if n == 394 {
        (TransactionDirection::Credit, TransactionSubType::CumulativeCredits)
    } else
    if n == 395 {
        (TransactionDirection::Credit, TransactionSubType::CheckReversal)
    } else
    if n == 397 {
        (TransactionDirection::Credit, TransactionSubType::FloatAdjustment)
    } else
    if n == 398 {
        (TransactionDirection::Credit, TransactionSubType::MiscellaneousFeeRefund)
    } else
    if n == 399 {
        (TransactionDirection::Credit, TransactionSubType::MiscellaneousCredit)
    } else
    if n == 408 {
        (TransactionDirection::Debit, TransactionSubType::FloatAdjustment)
    } else
    if n == 409 {
        (TransactionDirection::Debit, TransactionSubType::DebitAnyType)
    } else
    if n == 415 {
        (TransactionDirection::Debit, TransactionSubType::LockboxDebit)
    } else
    if n == 421 {
        (TransactionDirection::Debit, TransactionSubType::EdiTransactionDebit)
    } else
    if n == 422 {
        (TransactionDirection::Debit, TransactionSubType::EdibanxSettlementDebit)
    } else
    if n == 423 {
        (TransactionDirection::Debit, TransactionSubType::EdibanxReturnItemDebit)
    } else
    if n == 435 {
        (TransactionDirection::Debit, TransactionSubType::PayableThroughDraft)
    } else
    if n == 445 {
        (TransactionDirection::Debit, TransactionSubType::AchConcentrationDebit)
    } else
    if n == 447 {
        (TransactionDirection::Debit, TransactionSubType::AchDisbursementFundingDebit)
    } else
    if n == 451 {
        (TransactionDirection::Debit, TransactionSubType::AchDebitReceived)
    } else
    if n == 452 {
        (TransactionDirection::Debit, TransactionSubType::ItemInAchDisbursementOrDebit)
    } else
    if n == 455 {
        (TransactionDirection::Debit, TransactionSubType::PreauthorizedAchDebit)
    } else
    if n == 462 {
        (TransactionDirection::Debit, TransactionSubType::AccountHolderInitiatedAchDebit)
    } else
    if n == 464 {
        (TransactionDirection::Debit, TransactionSubType::CorporateTradePaymentDebit)
    } else
    if n == 466 {
        (TransactionDirection::Debit, TransactionSubType::AchSettlement)
    } else
    if n == 468 {
        (TransactionDirection::Debit, TransactionSubType::AchReturnItemOrAdjustmentSettlement)
    } else
    if n == 469 {
        (TransactionDirection::Debit, TransactionSubType::MiscellaneousAchDebit)
    } else
    if n == 472 {
        (TransactionDirection::Debit, TransactionSubType::CumulativeChecksPaid)
    } else
    if n == 474 {
        (TransactionDirection::Debit, TransactionSubType::CertifiedCheckDebit)
    } else
    if n == 475 {
        (TransactionDirection::Debit, TransactionSubType::CheckPaid)
    } else
    if n == 476 {
        (TransactionDirection::Debit, TransactionSubType::FederalReserveBankLetterDebit)
    } else
    if n == 477 {
        (TransactionDirection::Debit, TransactionSubType::BankOriginatedDebit)
    } else
    if n == 479 {
        (TransactionDirection::Debit, TransactionSubType::ListPostDebit)
    } else
    if n == 481 {
        (TransactionDirection::Debit, TransactionSubType::IndividualLoanPayment)
    } else
    if n == 484 {
        (TransactionDirection::Debit, TransactionSubType::Draft)
    } else
    if n == 485 {
        (TransactionDirection::Debit, TransactionSubType::DtcDebit)
    } else
    if n == 487 {
        (TransactionDirection::Debit, TransactionSubType::CashLetterDebit)
    } else
    if n == 489 {
        (TransactionDirection::Debit, TransactionSubType::CashLetterAdjustment)
    } else
    if n == 491 {
        (TransactionDirection::Debit, TransactionSubType::IndividualOutgoingInternalMoneyTransfer)
    } else
    if n == 493 {
        (TransactionDirection::Debit, TransactionSubType::CustomerTerminalInitiatedMoneyTransfer)
    } else
    if n == 495 {
        (TransactionDirection::Debit, TransactionSubType::OutgoingMoneyTransfer)
    } else
    if n == 496 {
        (TransactionDirection::Debit, TransactionSubType::MoneyTransferAdjustment)
    } else
    if n == 498 {
        (TransactionDirection::Debit, TransactionSubType::Compensation)
    } else {
        (TransactionDirection::Unknown, TransactionSubType::Unknown)
    }
}

pub open spec fn txn_class_high_spec(n: u16) -> (TransactionDirection, TransactionSubType) {
    if n == 501 {
        (TransactionDirection::Debit, TransactionSubType::IndividualAutomaticTransferDebit)
    } else
    if n == 502 {
        (TransactionDirection::Debit, TransactionSubType::BondOperationsDebit)
    } else
    if n == 506 {
        (TransactionDirection::Debit, TransactionSubType::BookTransferDebit)
    } else
    if n == 508 {
        (TransactionDirection::Debit, TransactionSubType::IndividualInternationalMoneyTransferDebits)
    } else
    if n == 512 {
        (TransactionDirection::Debit, TransactionSubType::LetterOfCreditDebit)
    } else
    if n == 513 {
        (TransactionDirection::Debit, TransactionSubType::LetterOfCredit)
    } else
    if n == 514 {
        (TransactionDirection::Debit, TransactionSubType::ForeignExchangeDebit)
    } else
    if n == 516 {
        (TransactionDirection::Debit, TransactionSubType::ForeignRemittanceDebit)
    } else
    if n == 518 {
        (TransactionDirection::Debit, TransactionSubType::ForeignCollectionDebit)
    } else
    if n == 522 {
        (TransactionDirection::Debit, TransactionSubType::ForeignChecksPaid)
    } else
    if n == 524 {
        (TransactionDirection::Debit, TransactionSubType::Commission)
    } else
    if n == 526 {
        (TransactionDirection::Debit, TransactionSubType::InternationalMoneyMarketTrading)
    } else
    if n == 527 {
        (TransactionDirection::Debit, TransactionSubType::StandingOrder)
    } else
    if n == 529 {
        (TransactionDirection::Debit, TransactionSubType::MiscellaneousInternationalDebit)
    } else
    if n == 531 {
        (TransactionDirection::Debit, TransactionSubType::SecuritiesPurchased)
    } else
    if n == 533 {
        (TransactionDirection::Debit, TransactionSubType::SecurityCollectionDebit)
    } else
    if n == 535 {
        (TransactionDirection::Debit, TransactionSubType::PurchaseOfEquitySecurities)
    } else
    if n == 538 {
        (TransactionDirection::Debit, TransactionSubType::MaturedRepurchaseOrder)
    } else
    if n == 540 {
        (TransactionDirection::Debit, TransactionSubType::CouponCollectionDebit)
    } else
    if n == 541 {
        (TransactionDirection::Debit, TransactionSubType::BankersAcceptances)
    } else
    if n == 542 {
        (TransactionDirection::Debit, TransactionSubType::PurchaseOfDebtSecurities)
    } else
    if n == 543 {
        (TransactionDirection::Debit, TransactionSubType::DomesticCollection)
    } else
    if n == 544 {
        (TransactionDirection::Debit, TransactionSubType::InterestMaturedPrincipalPayment)
    } else
    if n == 546 {
        (TransactionDirection::Debit, TransactionSubType::CommercialPaper)
    } else
    if n == 547 {
        (TransactionDirection::Debit, TransactionSubType::CapitalChange)
    } else
    if n == 548 {
        (TransactionDirection::Debit, TransactionSubType::SavingsBondsSalesAdjustment)
    } else
    if n == 549 {
        (TransactionDirection::Debit, TransactionSubType::MiscellaneousSecurityDebit)
    } else
    if n == 552 {
        (TransactionDirection::Debit, TransactionSubType::CreditReversal)
    } else
    if n == 554 {
        (TransactionDirection::Debit, TransactionSubType::PostingErrorCorrectionDebit)
    } else
    if n == 555 {
        (TransactionDirection::Debit, TransactionSubType::DepositedItemReturned)
    } else
    if n == 557 {
        (TransactionDirection::Debit, TransactionSubType::IndividualAchReturnItem)
    } else
    if n == 558 {
        (TransactionDirection::Debit, TransactionSubType::AchReversalDebit)
    } else
    if n == 561 {
        (TransactionDirection::Debit, TransactionSubType::IndividualRejectedDebit)
    } else
    if n == 563 {
        (TransactionDirection::Debit, TransactionSubType::Overdraft)
    } else
    if n == 564 {
        (TransactionDirection::Debit, TransactionSubType::OverdraftFee)
    } else
    if n == 566 {
        (TransactionDirection::Debit, TransactionSubType::ReturnItem)
    } else
    if n == 567 {
        (TransactionDirection::Debit, TransactionSubType::ReturnItemFee)
    } else
    if n == 568 {
        (TransactionDirection::Debit, TransactionSubType::ReturnItemAdjustment)
    } else
    if n == 574 {
        (TransactionDirection::Debit, TransactionSubType::CumulativeZbaDebits)
    } else
    if n == 575 {
        (TransactionDirection::Debit, TransactionSubType::ZbaDebit)
    } else
    if n == 577 {
        (TransactionDirection::Debit, TransactionSubType::ZbaDebitTransfer)
    } else
    if n == 578 {
        (TransactionDirection::Debit, TransactionSubType::ZbaDebitAdjustment)
    } else
    if n == 581 {
        (TransactionDirection::Debit, TransactionSubType::IndividualControlledDisbursingDebit)
    } else
    if n == 595 {
        (TransactionDirection::Debit, TransactionSubType::AtmDebit)
    } else
    if n == 597 {
        (TransactionDirection::Debit, TransactionSubType::ArpDebit)
    } else
    if n == 616 {
        (TransactionDirection::Debit, TransactionSubType::FederalReserveBankCommercialBankDebit)
    } else
    if n == 622 {
        (TransactionDirection::Debit, TransactionSubType::BrokerDebit)
    } else
    if n == 627 {
        (TransactionDirection::Debit, TransactionSubType::FedFundsPurchased)
    } else
    if n == 629 {
        (TransactionDirection::Debit, TransactionSubType::CashCenterDebit)
    } else
    if n == 631 {
        (TransactionDirection::Debit, TransactionSubType::DebitAdjustment)
    } else
    if n == 633 {
        (TransactionDirection::Debit, TransactionSubType::TrustDebit)
    } else
    if n == 634 {
        (TransactionDirection::Debit, TransactionSubType::YtdAdjustmentDebit)
    } else
    if n == 641 {
        (TransactionDirection::Debit, TransactionSubType::IndividualEscrowDebit)
    } else
    if n == 644 {
        (TransactionDirection::Debit, TransactionSubType::IndividualBackValueDebit)
    } else
    if n == 651 {
        (TransactionDirection::Debit, TransactionSubType::IndividualInvestmentPurchased)
    } else
    if n == 654 {
        (TransactionDirection::Debit, TransactionSubType::InterestDebit)
    } else
    if n == 656 {
        (TransactionDirection::Debit, TransactionSubType::SweepPrincipalBuy)
    } else
    if n == 657 {
        (TransactionDirection::Debit, TransactionSubType::FuturesDebit)
    } else
    if n == 658 {
        (TransactionDirection::Debit, TransactionSubType::PrincipalPaymentsDebit)
    } else
    if n == 659 {
        (TransactionDirection::Debit, TransactionSubType::InterestAdjustmentDebit)
    } else
    if n == 661 {
        (TransactionDirection::Debit, TransactionSubType::AccountAnalysisFee)
    } else
    if n == 662 {
        (TransactionDirection::Debit, TransactionSubType::CorrespondentCollectionDebit)
    } else
    if n == 663 {
        (TransactionDirection::Debit, TransactionSubType::CorrespondentCollectionAdjustment)
    } else
    if n == 664 {
        (TransactionDirection::Debit, TransactionSubType::LoanParticipation)
    } else
    if n == 666 {
        (TransactionDirection::Debit, TransactionSubType::CurrencyAndCoinShipped)
    } else
    if n == 667 {
        (TransactionDirection::Debit, TransactionSubType::FoodStampLetter)
    } else
    if n == 668 {
        (TransactionDirection::Debit, TransactionSubType::FoodStampAdjustment)
    } else
    if n == 669 {
        (TransactionDirection::Debit, TransactionSubType::ClearingSettlementDebit)
    } else
    if n == 672 {
        (TransactionDirection::Debit, TransactionSubType::BackValueAdjustment)
    } else
    if n == 673 {
        (TransactionDirection::Debit, TransactionSubType::CustomerPayroll)
    } else
    if n == 674 {
        (TransactionDirection::Debit, TransactionSubType::FrbStatementRecap)
    } else
    if n == 676 {
        (TransactionDirection::Debit, TransactionSubType::SavingsBondLetterOrAdjustment)
    } else
    if n == 677 {
        (TransactionDirection::Debit, TransactionSubType::TreasuryTaxAndLoanDebit)
    } else
    if n == 678 {
        (TransactionDirection::Debit, TransactionSubType::TransferOfTreasuryDebit)
    } else
    if n == 679 {
        (TransactionDirection::Debit, TransactionSubType::FrbGovernmentChecksCashLetterDebit)
    } else
    if n == 681 {
        (TransactionDirection::Debit, TransactionSubType::FrbGovernmentCheckAdjustment)
    } else
    if n == 682 {
        (TransactionDirection::Debit, TransactionSubType::FrbPostalMoneyOrderDebit)
    } else
    if n == 683 {
        (TransactionDirection::Debit, TransactionSubType::FrbPostalMoneyOrderAdjustment)
    } else
    if n == 684 {
        (TransactionDirection::Debit, TransactionSubType::FrbCashLetterAutoChargeDebit)
    } else
    if n == 686 {
        (TransactionDirection::Debit, TransactionSubType::FrbCashLetterAutoChargeAdjustment)
    } else
    if n == 687 {
        (TransactionDirection::Debit, TransactionSubType::FrbFineSortCashLetterDebit)
    } else
    if n == 688 {
        (TransactionDirection::Debit, TransactionSubType::FrbFineSortAdjustment)
    } else
    if n == 691 {
        (TransactionDirection::Debit, TransactionSubType::UniversalDebit)
    } else
    if n == 692 {
        (TransactionDirection::Debit, TransactionSubType::FreightPaymentDebit)
    } else
    if n == 693 {
        (TransactionDirection::Debit, TransactionSubType::ItemizedDebitOver10000)
    } else
    if n == 694 {
        (TransactionDirection::Debit, TransactionSubType::DepositReversal)
    } else
    if n == 695 {
        (TransactionDirection::Debit, TransactionSubType::DepositCorrectionDebit)
    } else
    if n == 696 {
        (TransactionDirection::Debit, TransactionSubType::RegularCollectionDebit)
    } else
    if n == 697 {
        (TransactionDirection::Debit, TransactionSubType::CumulativeDebits)
    } else
    if n == 698 {
        (TransactionDirection::Debit, TransactionSubType::MiscellaneousFees)
    } else
    if n == 699 {
        (TransactionDirection::Debit, TransactionSubType::MiscellaneousDebit)
    } else
    if n == 721 {
        (TransactionDirection::Credit, TransactionSubType::AmountAppliedToInterest)
    } else
    if n == 722 {
        (TransactionDirection::Credit, TransactionSubType::AmountAppliedToPrincipal)
    } else
    if n == 723 {
        (TransactionDirection::Credit, TransactionSubType::AmountAppliedToEscrow)
    } else
    if n == 724 {
        (TransactionDirection::Credit, TransactionSubType::AmountAppliedToLateCharges)
    } else
    if n == 725 {
        (TransactionDirection::Credit, TransactionSubType::AmountAppliedToBuydown)
    } else
    if n == 726 {
        (TransactionDirection::Credit, TransactionSubType::AmountAppliedToMiscFees)
    } else
    if n == 727 {
        (TransactionDirection::Credit, TransactionSubType::AmountAppliedToDeferredInterestDetail)
    } else
    if n == 728 {
        (TransactionDirection::Credit, TransactionSubType::AmountAppliedToServiceCharge)
    } else
    if n == 890 {
        (TransactionDirection::Unknown, TransactionSubType::Info)
    } else {
        if 920 <= n && n <= 959 {
            (TransactionDirection::Credit, TransactionSubType::Custom)
        } else if 960 <= n && n <= 999 {
            (TransactionDirection::Debit, TransactionSubType::Custom)
        } else {
            (TransactionDirection::Unknown, TransactionSubType::Unknown)
        }
    }
}

fn txn_class_high(n: u16) -> (r: (TransactionDirection, TransactionSubType))
    ensures
        r == txn_class_high_spec(n),
{
    if n == 501 {
        (TransactionDirection::Debit, TransactionSubType::IndividualAutomaticTransferDebit)
    } else
    if n == 502 {
        (TransactionDirection::Debit, TransactionSubType::BondOperationsDebit)
    } else
    if n == 506 {
        (TransactionDirection::Debit, TransactionSubType::BookTransferDebit)
    } else
    if n == 508 {
        (TransactionDirection::Debit, TransactionSubType::IndividualInternationalMoneyTransferDebits)
    } else
    if n == 512 {
        (TransactionDirection::Debit, TransactionSubType::LetterOfCreditDebit)
    } else
    if n == 513 {
        (TransactionDirection::Debit, TransactionSubType::LetterOfCredit)
    } else
    if n == 514 {
        (TransactionDirection::Debit, TransactionSubType::ForeignExchangeDebit)
    } else
    if n == 516 {
        (TransactionDirection::Debit, TransactionSubType::ForeignRemittanceDebit)
    } else
    if n == 518 {
        (TransactionDirection::Debit, TransactionSubType::ForeignCollectionDebit)
    } else
    if n == 522 {
        (TransactionDirection::Debit, TransactionSubType::ForeignChecksPaid)
    } else
    if n == 524 {
        (TransactionDirection::Debit, TransactionSubType::Commission)
    } else
    if n == 526 {
        (TransactionDirection::Debit, TransactionSubType::InternationalMoneyMarketTrading)
    } else
    if n == 527 {
        (TransactionDirection::Debit, TransactionSubType::StandingOrder)
    } else
    if n == 529 {
        (TransactionDirection::Debit, TransactionSubType::MiscellaneousInternationalDebit)
    } else
    if n == 531 {
        (TransactionDirection::Debit, TransactionSubType::SecuritiesPurchased)
    } else
    if n == 533 {
        (TransactionDirection::Debit, TransactionSubType::SecurityCollectionDebit)
    } else
    if n == 535 {
        (TransactionDirection::Debit, TransactionSubType::PurchaseOfEquitySecurities)
    } else
    if n == 538 {
        (TransactionDirection::Debit, TransactionSubType::MaturedRepurchaseOrder)
    } else
    if n == 540 {
        (TransactionDirection::Debit, TransactionSubType::CouponCollectionDebit)
    } else
    if n == 541 {
        (TransactionDirection::Debit, TransactionSubType::BankersAcceptances)
    } else
    if n == 542 {
        (TransactionDirection::Debit, TransactionSubType::PurchaseOfDebtSecurities)
    } else
    if n == 543 {
        (TransactionDirection::Debit, TransactionSubType::DomesticCollection)
    } else
    if n == 544 {
        (TransactionDirection::Debit, TransactionSubType::InterestMaturedPrincipalPayment)
    } else
    if n == 546 {
        (TransactionDirection::Debit, TransactionSubType::CommercialPaper)
    } else
    if n == 547 {
        (TransactionDirection::Debit, TransactionSubType::CapitalChange)
    } else
    if n == 548 {
        (TransactionDirection::Debit, TransactionSubType::SavingsBondsSalesAdjustment)
    } else
    if n == 549 {
        (TransactionDirection::Debit, TransactionSubType::MiscellaneousSecurityDebit)
    } else
    if n == 552 {
        (TransactionDirection::Debit, TransactionSubType::CreditReversal)
    } else
    if n == 554 {
        (TransactionDirection::Debit, TransactionSubType::PostingErrorCorrectionDebit)
    } else
    if n == 555 {
        (TransactionDirection::Debit, TransactionSubType::DepositedItemReturned)
    } else
    if n == 557 {
        (TransactionDirection::Debit, TransactionSubType::IndividualAchReturnItem)
    } else
    if n == 558 {
        (TransactionDirection::Debit, TransactionSubType::AchReversalDebit)
    } else
    if n == 561 {
        (TransactionDirection::Debit, TransactionSubType::IndividualRejectedDebit)
    } else
    if n == 563 {
        (TransactionDirection::Debit, TransactionSubType::Overdraft)
    } else
    if n == 564 {
        (TransactionDirection::Debit, TransactionSubType::OverdraftFee)
    } else
    if n == 566 {
        (TransactionDirection::Debit, TransactionSubType::ReturnItem)
    } else
    if n == 567 {
        (TransactionDirection::Debit, TransactionSubType::ReturnItemFee)
    } else
    if n == 568 {
        (TransactionDirection::Debit, TransactionSubType::ReturnItemAdjustment)
    } else
    if n == 574 {
        (TransactionDirection::Debit, TransactionSubType::CumulativeZbaDebits)
    } else
    if n == 575 {
        (TransactionDirection::Debit, TransactionSubType::ZbaDebit)
    } else
    if n == 577 {
        (TransactionDirection::Debit, TransactionSubType::ZbaDebitTransfer)
    } else
    if n == 578 {
        (TransactionDirection::Debit, TransactionSubType::ZbaDebitAdjustment)
    } else
    if n == 581 {
        (TransactionDirection::Debit, TransactionSubType::IndividualControlledDisbursingDebit)
    } else
    if n == 595 {
        (TransactionDirection::Debit, TransactionSubType::AtmDebit)
    } else
    if n == 597 {
        (TransactionDirection::Debit, TransactionSubType::ArpDebit)
    } else
    if n == 616 {
        (TransactionDirection::Debit, TransactionSubType::FederalReserveBankCommercialBankDebit)
    } else
    if n == 622 {
        (TransactionDirection::Debit, TransactionSubType::BrokerDebit)
    } else
    if n == 627 {
        (TransactionDirection::Debit, TransactionSubType::FedFundsPurchased)
    } else
    if n == 629 {
        (TransactionDirection::Debit, TransactionSubType::CashCenterDebit)
    } else
    if n == 631 {
        (TransactionDirection::Debit, TransactionSubType::DebitAdjustment)
    } else
    if n == 633 {
        (TransactionDirection::Debit, TransactionSubType::TrustDebit)
    } else
    if n == 634 {
        (TransactionDirection::Debit, TransactionSubType::YtdAdjustmentDebit)
    } else
    if n == 641 {
        (TransactionDirection::Debit, TransactionSubType::IndividualEscrowDebit)
    } else
    if n == 644 {
        (TransactionDirection::Debit, TransactionSubType::IndividualBackValueDebit)
    } else
    if n == 651 {
        (TransactionDirection::Debit, TransactionSubType::IndividualInvestmentPurchased)
    } else
    if n == 654 {
        (TransactionDirection::Debit, TransactionSubType::InterestDebit)
    } else
    if n == 656 {
        (TransactionDirection::Debit, TransactionSubType::SweepPrincipalBuy)
    } else
    if n == 657 {
        (TransactionDirection::Debit, TransactionSubType::FuturesDebit)
    } else
    if n == 658 {
        (TransactionDirection::Debit, TransactionSubType::PrincipalPaymentsDebit)
    } else
    if n == 659 {
        (TransactionDirection::Debit, TransactionSubType::InterestAdjustmentDebit)
    } else
    if n == 661 {
        (TransactionDirection::Debit, TransactionSubType::AccountAnalysisFee)
    } else
    if n == 662 {
        (TransactionDirection::Debit, TransactionSubType::CorrespondentCollectionDebit)
    } else
    if n == 663 {
        (TransactionDirection::Debit, TransactionSubType::CorrespondentCollectionAdjustment)
    } else
    if n == 664 {
        (TransactionDirection::Debit, TransactionSubType::LoanParticipation)
    } else
    if n == 666 {
        (TransactionDirection::Debit, TransactionSubType::CurrencyAndCoinShipped)
    } else
    if n == 667 {
        (TransactionDirection::Debit, TransactionSubType::FoodStampLetter)
    } else
    if n == 668 {
        (TransactionDirection::Debit, TransactionSubType::FoodStampAdjustment)
    } else
    if n == 669 {
        (TransactionDirection::Debit, TransactionSubType::ClearingSettlementDebit)
    } else
    if n == 672 {
        (TransactionDirection::Debit, TransactionSubType::BackValueAdjustment)
    } else
    if n == 673 {
        (TransactionDirection::Debit, TransactionSubType::CustomerPayroll)
    } else
    if n == 674 {
        (TransactionDirection::Debit, TransactionSubType::FrbStatementRecap)
    } else
    if n == 676 {
        (TransactionDirection::Debit, TransactionSubType::SavingsBondLetterOrAdjustment)
    } else
    if n == 677 {
        (TransactionDirection::Debit, TransactionSubType::TreasuryTaxAndLoanDebit)
    } else
    if n == 678 {
        (TransactionDirection::Debit, TransactionSubType::TransferOfTreasuryDebit)
    } else
    if n == 679 {
        (TransactionDirection::Debit, TransactionSubType::FrbGovernmentChecksCashLetterDebit)
    } else
    if n == 681 {
        (TransactionDirection::Debit, TransactionSubType::FrbGovernmentCheckAdjustment)
    } else
    if n == 682 {
        (TransactionDirection::Debit, TransactionSubType::FrbPostalMoneyOrderDebit)
    } else
    if n == 683 {
        (TransactionDirection::Debit, TransactionSubType::FrbPostalMoneyOrderAdjustment)
    } else
    if n == 684 {
        (TransactionDirection::Debit, TransactionSubType::FrbCashLetterAutoChargeDebit)
    } else
    if n == 686 {
        (TransactionDirection::Debit, TransactionSubType::FrbCashLetterAutoChargeAdjustment)
    } else
    if n == 687 {
        (TransactionDirection::Debit, TransactionSubType::FrbFineSortCashLetterDebit)
    } else
    if n == 688 {
        (TransactionDirection::Debit, TransactionSubType::FrbFineSortAdjustment)
    } else
    if n == 691 {
        (TransactionDirection::Debit, TransactionSubType::UniversalDebit)
    } else
    if n == 692 {
        (TransactionDirection::Debit, TransactionSubType::FreightPaymentDebit)
    } else
    if n == 693 {
        (TransactionDirection::Debit, TransactionSubType::ItemizedDebitOver10000)
    } else
    if n == 694 {
        (TransactionDirection::Debit, TransactionSubType::DepositReversal)
    } else
    if n == 695 {
        (TransactionDirection::Debit, TransactionSubType::DepositCorrectionDebit)
    } else
    if n == 696 {
        (TransactionDirection::Debit, TransactionSubType::RegularCollectionDebit)
    } else
    if n == 697 {
        (TransactionDirection::Debit, TransactionSubType::CumulativeDebits)
    } else
    if n == 698 {
        (TransactionDirection::Debit, TransactionSubType::MiscellaneousFees)
    } else
    if n == 699 {
        (TransactionDirection::Debit, TransactionSubType::MiscellaneousDebit)
    } else
    if n == 721 {
        (TransactionDirection::Credit, TransactionSubType::AmountAppliedToInterest)
    } else
    if n == 722 {
        (TransactionDirection::Credit, TransactionSubType::AmountAppliedToPrincipal)
    } else
    if n == 723 {
        (TransactionDirection::Credit, TransactionSubType::AmountAppliedToEscrow)
    } else
    if n == 724 {
        (TransactionDirection::Credit, TransactionSubType::AmountAppliedToLateCharges)
    } else
    if n == 725 {
        (TransactionDirection::Credit, TransactionSubType::AmountAppliedToBuydown)
    } else
    if n == 726 {
        (TransactionDirection::Credit, TransactionSubType::AmountAppliedToMiscFees)
    } else
    if n == 727 {
        (TransactionDirection::Credit, TransactionSubType::AmountAppliedToDeferredInterestDetail)
    } else
    if n == 728 {
        (TransactionDirection::Credit, TransactionSubType::AmountAppliedToServiceCharge)
    } else
    if n == 890 {
        (TransactionDirection::Unknown, TransactionSubType::Info)
    } else {
        if 920 <= n && n <= 959 {
            (TransactionDirection::Credit, TransactionSubType::Custom)
        } else if 960 <= n && n <= 999 {
            (TransactionDirection::Debit, TransactionSubType::Custom)
        } else {
            (TransactionDirection::Unknown, TransactionSubType::Unknown)
        }
    }
}

/// The direction and classification of a three-digit numeric code.
pub open spec fn txn_class_spec(n: u16) -> (TransactionDirection, TransactionSubType) {
    if n < 300 {
        txn_class_low_spec(n)
    } else if n < 500 {
        txn_class_mid_spec(n)
    } else {
        txn_class_high_spec(n)
    }
}

/// The classification of a code that is not three digits: only the custom
/// numeric ranges still classify, through a plain integer parse.
pub open spec fn txn_fallback_spec(s: Seq<char>) -> (TransactionDirection, TransactionSubType) {
    match parse_signed_spec(s) {
        Some(v) => {
            if 920 <= v <= 959 {
                (TransactionDirection::Credit, TransactionSubType::Custom)
            } else if 960 <= v <= 999 {
                (TransactionDirection::Debit, TransactionSubType::Custom)
            } else {
                (TransactionDirection::Unknown, TransactionSubType::Unknown)
            }
        },
        None => (TransactionDirection::Unknown, TransactionSubType::Unknown),
    }
}

/// The direction and classification a raw transaction type code names.
pub open spec fn transaction_class_spec(s: Seq<char>) -> (
    TransactionDirection,
    TransactionSubType,
) {
    match code_value_spec(s) {
        Some(n) => txn_class_spec(n),
        None => txn_fallback_spec(s),
    }
}

/// The classified type a raw transaction type code names, carrying the
/// code itself.
pub open spec fn transaction_type_spec(s: Seq<char>) -> TransactionTypeS {
    let c = transaction_class_spec(s);
    match c.0 {
        TransactionDirection::Credit => TransactionTypeS::Credit(s, c.1),
        TransactionDirection::Debit => TransactionTypeS::Debit(s, c.1),
        TransactionDirection::Unknown => TransactionTypeS::Unknown(s, c.1),
    }
}

fn txn_fallback(s: &str) -> (r: (TransactionDirection, TransactionSubType))
    ensures
        r == txn_fallback_spec(s@),
{
    match crate::util::parse_plain_int(s) {
        Some(v) => {
            if 920 <= v && v <= 959 {
                (TransactionDirection::Credit, TransactionSubType::Custom)
            } else if 960 <= v && v <= 999 {
                (TransactionDirection::Debit, TransactionSubType::Custom)
            } else {
                (TransactionDirection::Unknown, TransactionSubType::Unknown)
            }
        },
        None => (TransactionDirection::Unknown, TransactionSubType::Unknown),
    }
}

/// The direction and classification a raw transaction type code names.
pub fn transaction_class(s: &str) -> (r: (TransactionDirection, TransactionSubType))
    ensures
        r == transaction_class_spec(s@),
{
    match crate::util::code_value(s) {
        Some(n) => {
            if n < 300 {
                txn_class_low(n)
            } else if n < 500 {
                txn_class_mid(n)
            } else {
                txn_class_high(n)
            }
        },
        None => txn_fallback(s),
    }
}

impl TransactionType {
    /// Classifies a transaction type code: the caller hands the code
    /// already normalized, as it stands in the record's field.
    pub fn parse(type_code: &str) -> (r: TransactionType)
        ensures
            r@ == transaction_type_spec(type_code@),
    {
        let code = type_code.to_owned();
        let class = transaction_class(type_code);
        match class.0 {
            TransactionDirection::Credit => TransactionType::Credit(code, class.1),
            TransactionDirection::Debit => TransactionType::Debit(code, class.1),
            TransactionDirection::Unknown => TransactionType::Unknown(code, class.1),
        }
    }
}

/// Classification is a pure function of the code alone: two
/// classifications of the same code always agree.
pub proof fn lemma_classification_idempotent(
    code: Seq<char>,
    a: TransactionTypeS,
    b: TransactionTypeS,
)
    requires
        a == transaction_type_spec(code),
        b == transaction_type_spec(code),
    ensures
        a == b,
{
}

/// A code in the documented custom numeric ranges that the table does not
/// list still classifies as custom-but-directional, never as fully
/// unknown.
#[verifier::rlimit(60)]
pub proof fn lemma_custom_transaction_codes(code: Seq<char>)
    requires
        code_value_spec(code) is Some,
        920 <= code_value_spec(code)->0 <= 999,
    ensures
        920 <= code_value_spec(code)->0 <= 959 ==> transaction_type_spec(code)
            == TransactionTypeS::Credit(code, TransactionSubType::Custom),
        960 <= code_value_spec(code)->0 <= 999 ==> transaction_type_spec(code)
            == TransactionTypeS::Debit(code, TransactionSubType::Custom),
{
}

/// A code that is not three digits, and that the plain integer parse
/// leaves outside the custom ranges or cannot read at all, classifies as
/// fully unknown.
pub proof fn lemma_unknown_transaction_codes(code: Seq<char>)
    requires
        code_value_spec(code) is None,
        match parse_signed_spec(code) {
            Some(v) => !(920 <= v <= 999),
            None => true,
        },
    ensures
        transaction_type_spec(code) == TransactionTypeS::Unknown(
            code,
            TransactionSubType::Unknown,
        ),
{
}

/// The three-digit codes between the table's last entry and the custom
/// ranges classify as fully unknown.
#[verifier::rlimit(60)]
pub proof fn lemma_gap_transaction_codes(code: Seq<char>)
    requires
        code_value_spec(code) is Some,
        891 <= code_value_spec(code)->0 <= 919,
    ensures
        transaction_type_spec(code) == TransactionTypeS::Unknown(
            code,
            TransactionSubType::Unknown,
        ),
{
}

} // verus!
